//! The image checksum.

use vstd::prelude::*;

verus! {

/// One bit of the checksum register.
pub open spec fn shifted(crc: u32) -> u32 {
    if crc & 0x8000_0000 != 0 {
        (crc << 1) ^ 0x04C1_1DB7
    } else {
        crc << 1
    }
}

/// `count` bits of the checksum register.
pub open spec fn shifted_by(crc: u32, count: nat) -> u32
    decreases count,
{
    if count == 0 {
        crc
    } else {
        shifted(shifted_by(crc, (count - 1) as nat))
    }
}

/// The checksum of an image: each byte is mixed into the low bits, and the
/// register shifts out at the top.
pub open spec fn image_crc(data: Seq<u8>) -> u32
    decreases data.len(),
{
    if data.len() == 0 {
        0xFFFF_FFFF
    } else {
        shifted_by(image_crc(data.drop_last()) ^ (data.last() as u32), 8)
    }
}

/// Identical to the stock bootloader's checksum (byte XORed into the low bits,
/// MSB-first shifts).
pub fn crc32(data: &[u8]) -> (crc: u32)
    ensures
        crc == image_crc(data@),
{
    let mut crc: u32 = 0xFFFF_FFFF;
    let mut index: usize = 0;
    assert(data@.take(0) =~= Seq::<u8>::empty());
    while index < data.len()
        invariant
            index <= data@.len(),
            crc == image_crc(data@.take(index as int)),
        decreases data@.len() - index,
    {
        let byte: u8 = data[index];
        crc = crc ^ (byte as u32);
        let ghost mixed = crc;
        let mut bit: u8 = 0;
        while bit < 8
            invariant
                bit <= 8,
                crc == shifted_by(mixed, bit as nat),
            decreases 8 - bit,
        {
            crc = if crc & 0x8000_0000 != 0 {
                (crc << 1) ^ 0x04C1_1DB7
            } else {
                crc << 1
            };
            bit = bit + 1;
        }
        proof {
            let longer = data@.take(index + 1);
            assert(longer.drop_last() =~= data@.take(index as int));
            assert(longer.last() == byte);
        }
        index = index + 1;
    }
    assert(data@.take(index as int) =~= data@);
    crc
}

proof fn lemma_shifted_by_injective(left: u32, right: u32, count: nat)
    requires
        left != right,
    ensures
        shifted_by(left, count) != shifted_by(right, count),
    decreases count,
{
    if count > 0 {
        lemma_shifted_by_injective(left, right, (count - 1) as nat);
        let a = shifted_by(left, (count - 1) as nat);
        let b = shifted_by(right, (count - 1) as nat);
        assert(a != b ==> (if a & 0x8000_0000 != 0 {
            (a << 1) ^ 0x04C1_1DB7u32
        } else {
            a << 1
        }) != (if b & 0x8000_0000 != 0 {
            (b << 1) ^ 0x04C1_1DB7u32
        } else {
            b << 1
        })) by (bit_vector);
    }
}

/// Changing any one byte of an image changes its checksum.
pub proof fn crc_detects_a_changed_byte(data: Seq<u8>, index: int, value: u8)
    requires
        0 <= index < data.len(),
        value != data[index],
    ensures
        image_crc(data.update(index, value)) != image_crc(data),
    decreases data.len(),
{
    let changed = data.update(index, value);
    let last = data.last();
    let before = image_crc(data.drop_last());
    let before_changed = image_crc(changed.drop_last());
    if index == data.len() - 1 {
        assert(changed.drop_last() =~= data.drop_last());
        assert(value != last ==> before ^ (value as u32) != before ^ (last as u32))
            by (bit_vector);
        lemma_shifted_by_injective(before ^ (value as u32), before ^ (last as u32), 8);
    } else {
        assert(changed.drop_last() =~= data.drop_last().update(index, value));
        crc_detects_a_changed_byte(data.drop_last(), index, value);
        assert(before != before_changed ==> before_changed ^ (last as u32) != before ^ (
        last as u32)) by (bit_vector);
        lemma_shifted_by_injective(before_changed ^ (last as u32), before ^ (last as u32), 8);
    }
}

} // verus!
