//! What the boot cores promise: what is started, what an update does to the
//! flash, and how its commands are answered.

use crate::boot_core::flash::{FlashAction, PlannedAction};
use crate::boot_core::launch::launchable;
use crate::boot_core::meta::{rebuild_plan, select_plan};
use crate::boot_core::protocol::{stage_verdict, Stage, UploadState, VerdictModel};
use crate::boot_core::service::{core_entry, packet_action, CoreEntry, PacketModel};
use crate::boot_shared::image::{
    app_descriptor, slot_descriptor, vectors_in_bounds, VectorCheck,
};
use crate::boot_shared::metadata::{scanned, RecordScan};
use crate::boot_shared::{boot_target, core_boot, BootTarget, CoreBoot};
use crate::boot_usb::ctrl::{sent_outcome, setup_outcome};
use crate::boot_usb::{Desc, Usb};
use crate::little_endian::{bytes32, le32};
use vstd::prelude::*;

verus! {

/// The trampoline hands over to the working core only where its flag says so,
/// the interlock is not held and the core is sound; otherwise to the first
/// sound one of golden core, working core and older application.
pub proof fn the_trampoline_prefers_what_is_sound(
    slot_flag: u32,
    held: bool,
    golden: bool,
    working: bool,
    older: bool,
)
    ensures
        ({
            let target = boot_target(slot_flag, held, golden, working, older);
            let chosen = slot_flag == 1 && !held && working;
            &&& chosen ==> target == BootTarget::SlotB
            &&& !chosen && golden ==> target == BootTarget::Golden
            &&& !chosen && !golden && working ==> target == BootTarget::SlotB
            &&& !golden && !working && older ==> target == BootTarget::Legacy
            &&& !golden && !working && !older ==> target == BootTarget::Halt
        }),
{
}

/// An application is launched where it is sound, the layout is the known one or
/// unknown, nobody asked for the updater, fewer than three boots in a row came
/// to nothing, and the interlock is not held. Otherwise the core stays as the
/// updater, and accepts a core only from the golden core under the interlock.
pub proof fn applications_are_launched_when_they_may(
    golden: bool,
    layout_word: u32,
    request_word: u32,
    scan: RecordScan,
    sound: bool,
    held: bool,
)
    ensures
        ({
            let known = layout_word == 0xffff_ffff || layout_word == 0x3232_5642;
            let asked = request_word != 0xffff_ffff;
            let failing = scan matches RecordScan::Valid { healthy, unhealthy } && unhealthy >= 3;
            let boot = core_boot(layout_word, request_word, scan, sound);
            let entry = core_entry(golden, boot, held);
            &&& boot == CoreBoot::LaunchApp <==> known && !asked && !failing && sound
            &&& entry == CoreEntry::Launch <==> known && !asked && !failing && sound && !held
            &&& entry != CoreEntry::Launch ==> entry == (CoreEntry::Update {
                allow_core: golden && held,
            })
        }),
{
}

/// A stack pointer is sound inside the 16 KiB of memory, and a reset vector with
/// its lowest bit set inside the image.
pub proof fn vectors_point_into_memory_and_image(
    initial_sp: u32,
    reset_vector: u32,
    base: u32,
    size: u32,
)
    ensures
        vectors_in_bounds((VectorCheck { initial_sp, reset_vector }), base, size) <==> 0x2000_0000
            <= initial_sp <= 0x2000_4000 && reset_vector % 2 == 1 && base < reset_vector <= base
            + size,
{
}

/// A partition is launched only with a descriptor at its end that names its
/// layout and a size that fits, with the checksum of that many bytes, and with
/// vectors into memory and into those bytes.
pub proof fn launched_applications_are_described(partition: Seq<u8>)
    requires
        partition.len() == 0x1_a000,
        launchable(partition),
    ensures
        ({
            let tail = partition.subrange(0x1_9fc0, 0x1_a000);
            let size = le32(tail, 8);
            &&& le32(tail, 0) == 0x4256_3244
            &&& le32(tail, 4) == 0x3232_5642
            &&& 0 < size <= 0x1_9fc0
            &&& crate::boot_shared::crc::image_crc(partition.take(size)) == le32(tail, 12)
            &&& 0x2000_0000 <= le32(partition, 0) <= 0x2000_4000
            &&& le32(partition, 4) % 2 == 1
            &&& 0x0800_5000 < le32(partition, 4) <= 0x0800_5000 + size
        }),
{
}

/// A descriptor of a core names its layout and a size that is not nothing.
pub proof fn cores_are_described(bytes: Seq<u8>)
    ensures
        slot_descriptor(bytes) is Some <==> le32(bytes, 0) == 0x4256_3253 && le32(bytes, 4)
            == 0x3232_5642 && le32(bytes, 8) > 0,
        app_descriptor(bytes) is Some <==> le32(bytes, 0) == 0x4256_3244 && le32(bytes, 4)
            == 0x3232_5642 && 0 < le32(bytes, 8) <= 0x1_9fc0,
        slot_descriptor(bytes) matches Some(found) ==> found.size == le32(bytes, 8) && found.crc
            == le32(bytes, 12),
        app_descriptor(bytes) matches Some(found) ==> found.size == le32(bytes, 8) && found.crc
            == le32(bytes, 12),
{
}

/// Boot records are pairs of words from the fourth word on. An erased page has
/// none; an attempt that was not confirmed counts as a failed boot, and a
/// confirmed one ends the row of failed boots.
pub proof fn boot_records_are_counted(words: Seq<u32>)
    requires
        words.len() >= 7,
    ensures
        words[3] >= 0x8000_0000 ==> scanned(words) == RecordScan::Empty,
        words[3] < 0x8000_0000 && words[5] >= 0x8000_0000 ==> scanned(words)
            == (RecordScan::Valid {
            healthy: if words[4] == 0xbfff_ffff {
                1
            } else {
                0
            },
            unhealthy: if words[4] == 0xbfff_ffff {
                0
            } else {
                1
            },
        }),
{
    reveal_with_fuel(crate::boot_shared::metadata::record_count, 3);
    reveal_with_fuel(crate::boot_shared::metadata::healthy_records, 3);
    reveal_with_fuel(crate::boot_shared::metadata::trailing_unhealthy, 3);
}

/// A confirmed boot ends the row of failed ones, and an unconfirmed one makes it
/// longer by one, however many came before.
pub proof fn the_last_boot_decides(words: Seq<u32>, count: nat)
    ensures
        ({
            let health = words[3 + 2 * (count as int) + 1];
            let before = crate::boot_shared::metadata::trailing_unhealthy(words, count);
            let after = crate::boot_shared::metadata::trailing_unhealthy(words, count + 1);
            &&& health == 0xbfff_ffff ==> after == 0
            &&& health != 0xbfff_ffff ==> after == before + 1
        }),
{
}

/// An empty packet asks for nothing, a packet that begins with 4 for a restart,
/// and one that begins with 16 for the identity: its name, its layout and the
/// largest application.
pub proof fn cores_identify_themselves(
    upload: UploadState,
    rest: Seq<u8>,
    allow_core: bool,
    image: Seq<u8>,
)
    ensures
        packet_action(upload, Seq::empty(), allow_core, image) == (PacketModel::Ignore, upload),
        packet_action(upload, seq![0x04u8] + rest, allow_core, image) == (
            PacketModel::Reboot,
            upload,
        ),
        packet_action(upload, seq![0x10u8] + rest, allow_core, image) == (
            PacketModel::Identify(
                seq![0x42u8, 0x56, 0x32, 0x43] + bytes32(0x3232_5642) + bytes32(0x1_9fc0),
            ),
            upload,
        ),
{
}

/// An upload is started by five bytes: a size from 192 bytes up to what the
/// section holds, and the section. The application section takes 52 pages from
/// its base; the core section, 6, is open only where cores may be written.
pub proof fn uploads_erase_their_section(
    upload: UploadState,
    size: u32,
    section: u8,
    allow_core: bool,
    image: Seq<u8>,
)
    ensures
        ({
            let packet = seq![0x01u8] + bytes32(size) + seq![section];
            let (action, after) = packet_action(upload, packet, allow_core, image);
            let application = section == 0 && 192 <= size <= 0x1_9fc0;
            let core = section == 1 && allow_core && 192 <= size <= 0x2ff0;
            let base: u32 = if section == 0 {
                0x0800_5000
            } else {
                0x0800_2000
            };
            let pages: nat = if section == 0 {
                52
            } else {
                6
            };
            &&& after == upload
            &&& !application && !core ==> action == PacketModel::Upload(VerdictModel::Reply(0x15))
            &&& application || core ==> {
                &&& action matches PacketModel::Upload(VerdictModel::Carry { plan, stage })
                &&& plan.len() == pages
                &&& forall|page: int|
                    0 <= page < pages ==> #[trigger] plan[page] == (PlannedAction {
                        action: FlashAction::Erase { address: (base + 0x800 * page) as u32 },
                        required: true,
                    })
                &&& stage == Stage::Erased(
                    UploadState { active: true, section, base, written: 0, total: size as usize },
                )
            }
        }),
{
    let packet = seq![0x01u8] + bytes32(size) + seq![section];
    let body = packet.subrange(1, packet.len() as int);
    assert(body =~= bytes32(size) + seq![section]);
    crate::little_endian::bytes32_round_trip(size);
    assert(le32(body, 0) == le32(bytes32(size), 0));
}

/// A chunk of an upload carries its length, one to 60 bytes, and that many
/// bytes. It goes where the last one ended, word by word; only the last chunk may
/// end inside a word, and a chunk that does not fit
/// ends the upload.
pub proof fn chunks_are_programmed_in_place(
    upload: UploadState,
    length: u8,
    payload: Seq<u8>,
    allow_core: bool,
    image: Seq<u8>,
    index: int,
)
    requires
        upload.wf(),
        payload.len() == length,
    ensures
        ({
            let packet = seq![0x02u8, length, 0] + payload;
            let (action, after) = packet_action(upload, packet, allow_core, image);
            let framed = 1 <= length <= 60;
            let fits = upload.written + length <= upload.total && (length % 4 == 0
                || upload.written + length == upload.total);
            &&& !upload.active || !framed ==> action == PacketModel::Upload(
                VerdictModel::Reply(0x15),
            ) && after == upload
            &&& upload.active && framed && !fits ==> action == PacketModel::Upload(
                VerdictModel::Reply(0x15),
            ) && !after.active
            &&& upload.active && framed && fits ==> {
                &&& after == upload
                &&& action matches PacketModel::Upload(VerdictModel::Carry { plan, stage })
                &&& stage == Stage::Programmed(length as usize)
                &&& plan.len() == (length + 3) / 4
                &&& 0 <= index < length / 4 ==> {
                    &&& plan[index].required
                    &&& plan[index].action == (FlashAction::Program {
                        address: (upload.base + upload.written + 4 * index) as u32,
                        value: le32(payload, 4 * index) as u32,
                    })
                }
            }
        }),
{
    let packet = seq![0x02u8, length, 0] + payload;
    let body = packet.subrange(1, packet.len() as int);
    assert(body =~= seq![length, 0u8] + payload);
    assert(body.subrange(2, body.len() as int) =~= payload);
    let word = seq![
        payload[4 * index],
        payload[4 * index + 1],
        payload[4 * index + 2],
        payload[4 * index + 3],
    ];
    assert(le32(word, 0) == le32(payload, 4 * index));
}

/// An upload is committed by its checksum once every byte is there; anything
/// else ends it.
pub proof fn uploads_are_committed_by_their_checksum(
    upload: UploadState,
    checksum: u32,
    allow_core: bool,
    image: Seq<u8>,
)
    ensures
        ({
            let packet = seq![0x03u8] + bytes32(checksum);
            let (action, after) = packet_action(upload, packet, allow_core, image);
            let complete = upload.active && upload.written == upload.total
                && crate::boot_shared::crc::image_crc(image) == checksum;
            &&& !complete ==> action == PacketModel::Upload(VerdictModel::Reply(0x15))
                && !after.active && after.written == 0
            &&& complete ==> after == upload && (action matches PacketModel::Upload(
                VerdictModel::Carry { plan, stage },
            ) && stage == if upload.section == 0 {
                Stage::AppDescriptor
            } else {
                Stage::SlotDescriptor
            })
        }),
{
    let packet = seq![0x03u8] + bytes32(checksum);
    let body = packet.subrange(1, packet.len() as int);
    assert(body =~= bytes32(checksum));
    crate::little_endian::bytes32_round_trip(checksum);
}

/// What was carried out well is acknowledged and counted; what failed is
/// refused, and ends an upload that had begun. A new application is followed by
/// a rebuild of the metadata, whatever comes of it, and a new core is selected.
pub proof fn work_that_failed_is_refused(upload: UploadState, staged: UploadState, flag: u32)
    requires
        upload.written + 60 <= usize::MAX,
    ensures
        stage_verdict(upload, Stage::Erased(staged), true, flag) == (
            VerdictModel::Reply(0x06),
            staged,
        ),
        stage_verdict(upload, Stage::Erased(staged), false, flag).0 == VerdictModel::Reply(0x15),
        forall|length: usize|
            length <= 60 ==> #[trigger] stage_verdict(
                upload,
                Stage::Programmed(length),
                true,
                flag,
            ) == (
                VerdictModel::Reply(0x06),
                UploadState { written: (upload.written + length) as usize, ..upload },
            ),
        forall|length: usize|
            {
                let (verdict, after) = #[trigger] stage_verdict(
                    upload,
                    Stage::Programmed(length),
                    false,
                    flag,
                );
                verdict == VerdictModel::Reply(0x15) && !after.active
            },
        stage_verdict(upload, Stage::AppDescriptor, true, flag).0 == (VerdictModel::Carry {
            plan: rebuild_plan(flag),
            stage: Stage::AppMetadata,
        }),
        stage_verdict(upload, Stage::AppDescriptor, false, flag).0 == VerdictModel::Reply(0x15),
        !stage_verdict(upload, Stage::AppDescriptor, false, flag).1.active,
        stage_verdict(upload, Stage::AppMetadata, true, flag).0 == VerdictModel::Reply(0x06),
        stage_verdict(upload, Stage::AppMetadata, false, flag).0 == VerdictModel::Reply(0x06),
        !stage_verdict(upload, Stage::AppMetadata, true, flag).1.active,
        stage_verdict(upload, Stage::SlotDescriptor, true, flag).0 == (VerdictModel::Carry {
            plan: select_plan(flag),
            stage: Stage::SlotSelected,
        }),
        stage_verdict(upload, Stage::SlotDescriptor, false, flag).0 == VerdictModel::Reply(0x15),
        stage_verdict(upload, Stage::SlotSelected, true, flag).0 == VerdictModel::Reply(0x06),
        stage_verdict(upload, Stage::SlotSelected, false, flag).0 == VerdictModel::Reply(0x15),
        !stage_verdict(upload, Stage::SlotSelected, true, flag).1.active,
{
}

/// A rebuild erases the metadata page, writes the layout again, and keeps the
/// selection of the working core; selecting that core erases only a flag that
/// holds something else.
pub proof fn metadata_is_rebuilt_in_order(flag: u32)
    ensures
        ({
            let erase = PlannedAction {
                action: FlashAction::Erase { address: 0x0801_f800 },
                required: true,
            };
            let layout = FlashAction::Program { address: 0x0801_f800, value: 0x3232_5642 };
            let select = FlashAction::Program { address: 0x0801_f804, value: 1 };
            let rebuilt = rebuild_plan(flag);
            let selected = select_plan(flag);
            &&& rebuilt[0] == erase
            &&& rebuilt[1] == (PlannedAction { action: layout, required: false })
            &&& flag == 1 ==> rebuilt.len() == 3 && rebuilt[2] == (PlannedAction {
                action: select,
                required: false,
            })
            &&& flag != 1 ==> rebuilt.len() == 2
            &&& flag == 1 ==> selected.len() == 0
            &&& flag == 0xffff_ffff ==> selected =~= seq![
                PlannedAction { action: select, required: true },
            ]
            &&& flag != 1 && flag != 0xffff_ffff ==> selected =~= seq![
                erase,
                PlannedAction { action: layout, required: true },
                PlannedAction { action: select, required: true },
            ]
        }),
{
}

/// A setup packet of the host.
pub open spec fn setup(kind: u8, request: u8, low: u8, high: u8, length: u8) -> Seq<u8> {
    seq![kind, request, low, high, 0, 0, length, 0]
}

/// A host sets the address, the configuration and the line; each is answered
/// with an empty packet, and the address counts only once that is taken.
pub proof fn hosts_configure_the_updater(usb: Usb, address: u8)
    requires
        0 < address < 0x80,
    ensures
        ({
            let addressed = setup_outcome(usb, setup(0x00, 5, address, 0, 0)).0;
            let configured = setup_outcome(usb, setup(0x00, 9, 1, 0, 0)).0;
            let released = setup_outcome(usb, setup(0x00, 9, 0, 0, 0)).0;
            let chosen = setup_outcome(usb, setup(0x00, 11, 0, 0, 0)).0;
            let coding = setup_outcome(usb, setup(0x21, 0x20, 0, 0, 7)).0;
            &&& addressed.stage == (crate::boot_usb::Stage::StatusIn { address })
            &&& addressed.configured == usb.configured
            &&& configured.configured && configured.stage == (crate::boot_usb::Stage::StatusIn {
                address: 0,
            })
            &&& !released.configured
            &&& chosen.stage == (crate::boot_usb::Stage::StatusIn { address: 0 })
            &&& chosen.configured == usb.configured
            &&& coding.stage == crate::boot_usb::Stage::RxOut
            &&& sent_outcome(addressed).0.stage == crate::boot_usb::Stage::Idle
            &&& sent_outcome(addressed).1.len() == 3
            &&& sent_outcome(configured).1.len() == 2
        }),
{
}

/// A host that asks for a descriptor gets it, no longer than it asked for; what
/// there is not is refused.
pub proof fn hosts_read_descriptors(usb: Usb, length: u8, kind: u8, index: u8)
    requires
        0 < length,
    ensures
        ({
            let stage = setup_outcome(usb, setup(0x80, 6, index, kind, length)).0.stage;
            let which = if kind == 1 {
                Some(Desc::Device)
            } else if kind == 2 {
                Some(Desc::Config)
            } else if kind == 3 && index == 0 {
                Some(Desc::LangId)
            } else if kind == 3 && index == 1 {
                Some(Desc::Manufacturer)
            } else if kind == 3 && index == 2 {
                Some(Desc::Product)
            } else if kind == 3 && index == 3 {
                Some(Desc::Serial)
            } else {
                None
            };
            &&& which is None ==> stage == crate::boot_usb::Stage::Idle
            &&& which matches Some(found) ==> {
                let whole = crate::boot_usb::desc_content(found, usb.serial@).len();
                stage matches crate::boot_usb::Stage::TxIn { which: sent, total } && sent == found
                    && total == if whole < length {
                    whole as int
                } else {
                    length as int
                }
            }
        }),
{
}

} // verus!
