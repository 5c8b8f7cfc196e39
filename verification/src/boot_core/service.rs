//! Decisions of a boot core: launch or update, and what a packet asks for.

use crate::boot_core::protocol::{
    cmd_info, dispatch, dispatch_verdict, identity, UploadState, Verdict, VerdictModel, CMD_BOOT,
    CMD_INFO,
};
use crate::boot_shared::metadata::RecordScan;
use crate::boot_shared::{core_boot, core_boot_decision, CoreBoot};
use vstd::prelude::*;
use vstd::slice::slice_subrange;

verus! {

/// The physical interlock counts as held when both samples of the encoder
/// switch, which is active low, read pressed. `first` and `second` are the
/// levels of its port.
pub fn interlock_held(first: u32, second: u32) -> (held: bool)
    ensures
        held == (first & 0x4000 == 0 && second & 0x4000 == 0),
{
    first & 0x4000 == 0 && second & 0x4000 == 0
}

/// What a core does when it starts.
#[derive(Clone, Copy, Debug, PartialEq, Eq, Structural)]
pub enum CoreEntry {
    /// Record the attempt and hand over to the application.
    Launch,
    /// Stay resident as the updater.
    Update { allow_core: bool },
}

/// What a core does when it starts: the interlock forces the updater even with
/// a healthy application, and it is what authorizes a core that may write core
/// sections.
pub open spec fn core_entry(
    core_writes_with_interlock: bool,
    boot: CoreBoot,
    interlock: bool,
) -> CoreEntry {
    if boot == CoreBoot::LaunchApp && !interlock {
        CoreEntry::Launch
    } else {
        CoreEntry::Update { allow_core: core_writes_with_interlock && interlock }
    }
}

/// Full boot-core entry for a real slot core (golden / worker): decide
/// launch-vs-updater from the metadata page and the app descriptor.
/// `core_writes_with_interlock` is true only for golden - the worker never
/// writes core sections (the running core must not touch its own pages).
pub fn boot_core_entry(
    core_writes_with_interlock: bool,
    layout_word: u32,
    request_word: u32,
    scan: &RecordScan,
    app_valid: bool,
    interlock: bool,
) -> (entry: CoreEntry)
    ensures
        entry == core_entry(
            core_writes_with_interlock,
            core_boot(layout_word, request_word, *scan, app_valid),
            interlock,
        ),
{
    let decision = core_boot_decision(layout_word, request_word, scan, app_valid);
    if decision == CoreBoot::LaunchApp && !interlock {
        CoreEntry::Launch
    } else {
        CoreEntry::Update { allow_core: core_writes_with_interlock && interlock }
    }
}

/// What a packet asks for.
#[derive(Debug)]
pub enum PacketAction {
    /// Nothing: the packet is empty.
    Ignore,
    /// Acknowledge, then reset.
    Reboot,
    /// Send the identity.
    Identify([u8; 12]),
    /// Go on with the upload.
    Upload(Verdict),
}

/// What a packet asks for, as a value.
pub enum PacketModel {
    Ignore,
    Reboot,
    Identify(Seq<u8>),
    Upload(VerdictModel),
}

impl PacketAction {
    pub open spec fn model(self) -> PacketModel {
        match self {
            PacketAction::Ignore => PacketModel::Ignore,
            PacketAction::Reboot => PacketModel::Reboot,
            PacketAction::Identify(bytes) => PacketModel::Identify(bytes@),
            PacketAction::Upload(verdict) => PacketModel::Upload(verdict.model()),
        }
    }
}

/// What a packet asks for, and the upload after it.
pub open spec fn packet_action(
    upload: UploadState,
    packet: Seq<u8>,
    allow_core: bool,
    image: Seq<u8>,
) -> (PacketModel, UploadState) {
    if packet.len() == 0 {
        (PacketModel::Ignore, upload)
    } else if packet[0] == CMD_BOOT {
        (PacketModel::Reboot, upload)
    } else if packet[0] == CMD_INFO {
        (PacketModel::Identify(identity()), upload)
    } else {
        let (verdict, after) = dispatch_verdict(
            upload,
            packet[0],
            packet.subrange(1, packet.len() as int),
            allow_core,
            image,
        );
        (PacketModel::Upload(verdict), after)
    }
}

/// One packet of the updater loop. `allow_core` gates non-app sections (slot B
/// writes stay golden-only; the trampoline's interlock decides which core is
/// even reachable).
pub fn handle_packet(
    upload: &mut UploadState,
    packet: &[u8],
    allow_core: bool,
    image: &[u8],
) -> (action: PacketAction)
    requires
        old(upload).wf(),
        image@.len() == old(upload).written,
    ensures
        final(upload).wf(),
        (action.model(), *final(upload)) == packet_action(
            *old(upload),
            packet@,
            allow_core,
            image@,
        ),
{
    if packet.len() == 0 {
        return PacketAction::Ignore;
    }
    let command: u8 = packet[0];
    if command == CMD_BOOT {
        return PacketAction::Reboot;
    }
    if command == CMD_INFO {
        return PacketAction::Identify(cmd_info());
    }
    let body = slice_subrange(packet, 1, packet.len());
    PacketAction::Upload(dispatch(upload, command, body, allow_core, image))
}

/// An application is launched only where it is valid and nobody holds the
/// interlock, and only the golden core, with the interlock held, ever accepts a
/// core image.
pub proof fn entries_are_authorized(
    core_writes_with_interlock: bool,
    layout_word: u32,
    request_word: u32,
    scan: RecordScan,
    app_valid: bool,
    interlock: bool,
)
    ensures
        match core_entry(
            core_writes_with_interlock,
            core_boot(layout_word, request_word, scan, app_valid),
            interlock,
        ) {
            CoreEntry::Launch => app_valid && !interlock,
            CoreEntry::Update { allow_core } => allow_core ==> core_writes_with_interlock
                && interlock,
        },
{
}

} // verus!
