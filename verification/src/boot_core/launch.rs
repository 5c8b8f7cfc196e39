//! Application verification and handover: peripherals quiesced, vectors copied
//! to SRAM, memory remapped, stack set, jump.

use crate::boot_shared::crc::{crc32, image_crc};
use crate::boot_shared::image::{
    app_descriptor, parse_app_descriptor, vectors_in_bounds, vectors_valid, VectorCheck,
};
use crate::boot_shared::layout::{APP_BASE, APP_MAX_SIZE, RAM_BASE, VECTOR_TABLE_SIZE};
use crate::little_endian::{le32, u32_at};
use vstd::prelude::*;
use vstd::slice::slice_subrange;

verus! {

/// The length of the application partition, its descriptor with it.
pub const APP_PARTITION_SIZE: usize = 0x1_A000;

/// The offset of the descriptor in the partition.
pub const DESC_OFFSET: usize = 0x1_9FC0;

/// True of an application partition that may be launched: its descriptor is
/// valid, the checksum of its image is the one described, and its vectors point
/// into SRAM and into the image.
pub open spec fn launchable(partition: Seq<u8>) -> bool {
    match app_descriptor(partition.subrange(DESC_OFFSET as int, APP_PARTITION_SIZE as int)) {
        Some(found) => {
            &&& image_crc(partition.take(found.size as int)) == found.crc
            &&& vectors_in_bounds(
                (VectorCheck {
                    initial_sp: le32(partition, 0) as u32,
                    reset_vector: le32(partition, 4) as u32,
                }),
                APP_BASE,
                found.size,
            )
        },
        None => false,
    }
}

/// Full application check: descriptor magic/version/size, CRC over the
/// image, and the same vector sanity the stock bootloader applies.
pub fn app_valid(partition: &[u8]) -> (valid: bool)
    requires
        partition@.len() == APP_PARTITION_SIZE,
    ensures
        valid == launchable(partition@),
{
    let mut descriptor: [u8; 64] = [0;64];
    let mut index: usize = 0;
    while index < 64
        invariant
            index <= 64,
            partition@.len() == APP_PARTITION_SIZE,
            forall|i: int| 0 <= i < index ==> descriptor@[i] == partition@[DESC_OFFSET + i],
        decreases 64 - index,
    {
        descriptor[index] = partition[DESC_OFFSET + index];
        index = index + 1;
    }
    assert(descriptor@ =~= partition@.subrange(DESC_OFFSET as int, APP_PARTITION_SIZE as int));
    let found = match parse_app_descriptor(&descriptor) {
        Some(found) => found,
        None => {
            return false;
        },
    };
    let image = slice_subrange(partition, 0, found.size as usize);
    assert(image@ =~= partition@.take(found.size as int));
    if crc32(image) != found.crc {
        return false;
    }
    let check = VectorCheck {
        initial_sp: u32_at(partition, 0),
        reset_vector: u32_at(partition, 4),
    };
    vectors_valid(check, APP_BASE, found.size)
}

/// One register access of the handover.
#[derive(Clone, Copy, Debug, PartialEq, Eq, Structural)]
pub enum RegisterStep {
    Write { address: u32, value: u32 },
    SetBits { address: u32, bits: u32 },
    ClearBits { address: u32, bits: u32 },
}

/// What is quiesced before a handover: SysTick, USB with its pull-up and its
/// clock, and every interrupt.
pub open spec fn quiet_steps() -> Seq<RegisterStep> {
    seq![
        RegisterStep::Write { address: 0xE000_E010, value: 0 },
        RegisterStep::Write { address: 0xE000_E014, value: 0 },
        RegisterStep::Write { address: 0xE000_E018, value: 0 },
        RegisterStep::Write { address: 0x4000_5C40, value: 1 },
        RegisterStep::Write { address: 0x4000_5C40, value: 0 },
        RegisterStep::ClearBits { address: 0x4000_5C58, bits: 0x8000 },
        RegisterStep::ClearBits { address: 0x4002_101C, bits: 0x80_0000 },
        RegisterStep::Write { address: 0xE000_E180, value: 0xFFFF_FFFF },
        RegisterStep::Write { address: 0xE000_E280, value: 0xFFFF_FFFF },
    ]
}

/// The vector table on its way to the start of SRAM.
pub open spec fn vector_steps(vectors: Seq<u32>) -> Seq<RegisterStep> {
    Seq::new(
        vectors.len(),
        |word: int|
            RegisterStep::Write { address: (RAM_BASE + 4 * word) as u32, value: vectors[word] },
    )
}

/// SRAM is mapped to address zero.
pub open spec fn remap_steps() -> Seq<RegisterStep> {
    seq![
        RegisterStep::SetBits { address: 0x4002_1018, bits: 1 },
        RegisterStep::SetBits { address: 0x4001_0000, bits: 3 },
    ]
}

/// The register accesses that hand over to an application, in order.
pub fn launch_app(vectors: &[u32]) -> (steps: Vec<RegisterStep>)
    requires
        vectors@.len() == VECTOR_TABLE_SIZE / 4,
    ensures
        steps@ == quiet_steps() + vector_steps(vectors@) + remap_steps(),
{
    let mut steps: Vec<RegisterStep> = vec![
        RegisterStep::Write { address: 0xE000_E010, value: 0 },
        RegisterStep::Write { address: 0xE000_E014, value: 0 },
        RegisterStep::Write { address: 0xE000_E018, value: 0 },
        RegisterStep::Write { address: 0x4000_5C40, value: 1 },
        RegisterStep::Write { address: 0x4000_5C40, value: 0 },
        RegisterStep::ClearBits { address: 0x4000_5C58, bits: 0x8000 },
        RegisterStep::ClearBits { address: 0x4002_101C, bits: 0x80_0000 },
        RegisterStep::Write { address: 0xE000_E180, value: 0xFFFF_FFFF },
        RegisterStep::Write { address: 0xE000_E280, value: 0xFFFF_FFFF },
    ];
    assert(steps@ =~= quiet_steps() + vector_steps(vectors@).take(0));
    let mut word: usize = 0;
    while word < vectors.len()
        invariant
            word <= vectors@.len(),
            vectors@.len() == 48,
            steps@ == quiet_steps() + vector_steps(vectors@).take(word as int),
        decreases vectors@.len() - word,
    {
        steps.push(
            RegisterStep::Write { address: RAM_BASE + 4 * word as u32, value: vectors[word] },
        );
        word = word + 1;
        assert(steps@ =~= quiet_steps() + vector_steps(vectors@).take(word as int));
    }
    steps.push(RegisterStep::SetBits { address: 0x4002_1018, bits: 1 });
    steps.push(RegisterStep::SetBits { address: 0x4001_0000, bits: 3 });
    assert(steps@ =~= quiet_steps() + vector_steps(vectors@) + remap_steps());
    steps
}

/// The address that the handover jumps to: the reset vector, in Thumb state.
pub fn entry_address(reset_vector: u32) -> (entry: u32)
    ensures
        entry == reset_vector | 1,
{
    reset_vector | 1
}

/// A committed upload is launchable exactly when its vectors are sound: what
/// was committed is what is launched.
pub proof fn committed_uploads_launch(partition: Seq<u8>, image: Seq<u8>)
    requires
        partition.len() == APP_PARTITION_SIZE,
        0 < image.len() <= APP_MAX_SIZE,
        image == partition.take(image.len() as int),
        partition.subrange(DESC_OFFSET as int, APP_PARTITION_SIZE as int)
            == crate::boot_shared::image::app_descriptor_bytes(
            image.len() as u32,
            image_crc(image),
        ),
    ensures
        launchable(partition) == vectors_in_bounds(
            (VectorCheck {
                initial_sp: le32(partition, 0) as u32,
                reset_vector: le32(partition, 4) as u32,
            }),
            APP_BASE,
            image.len() as u32,
        ),
{
    crate::boot_shared::image::app_descriptor_round_trip(image.len() as u32, image_crc(image));
}

} // verus!
