//! The stored form of the settings: a fixed-size record with a magic word, a
//! checksum and a commit word.

use crate::app::{AwgConfig, AwgWaveform, RegulationMode, TemperatureUnit};
use crate::limits::{
    max_voltage, min_voltage, voltage_range, AWG_MIN_FREQUENCY_MILLIHZ, CH4_MAX_VOLTAGE_MV,
    CH4_MIN_VOLTAGE_MV, CH5_MAX_VOLTAGE_MV, CH5_MIN_VOLTAGE_MV, CHANNEL_MAX_CURRENT_MA,
    SINK_MAX_CURRENT_MA,
};
use crate::little_endian::{bytes16, bytes32, le16, le32, to_bytes16, to_bytes32, u16_at, u32_at};
use crate::settings::PersistentSettings;
use vstd::prelude::*;

verus! {

pub const RECORD_SIZE: usize = 48;

pub const MAGIC: u32 = 0x4256_5333;

pub const COMMIT: u32 = 0x434f_4d54;

/// What a record is kept for.
#[derive(Clone, Copy, Debug, PartialEq, Eq, Structural)]
pub enum RecordKind {
    Autosave,
    Profile(u8),
}

#[derive(Clone, Copy, Debug, PartialEq, Eq)]
pub struct SettingsRecord {
    pub sequence: u32,
    pub kind: RecordKind,
    pub settings: PersistentSettings,
}

/// One bit of the reflected CRC-32.
pub open spec fn crc_bit(crc: u32) -> u32 {
    if crc & 1 != 0 {
        (crc >> 1) ^ 0xedb8_8320
    } else {
        crc >> 1
    }
}

/// `count` bits of the reflected CRC-32.
pub open spec fn crc_bits(crc: u32, count: nat) -> u32
    decreases count,
{
    if count == 0 {
        crc
    } else {
        crc_bit(crc_bits(crc, (count - 1) as nat))
    }
}

/// The CRC register after `bytes`.
pub open spec fn crc_register(bytes: Seq<u8>) -> u32
    decreases bytes.len(),
{
    if bytes.len() == 0 {
        0xffff_ffff
    } else {
        crc_bits(crc_register(bytes.drop_last()) ^ (bytes.last() as u32), 8)
    }
}

/// The checksum of `bytes`.
#[verifier::opaque]
pub open spec fn checksum(bytes: Seq<u8>) -> u32 {
    !crc_register(bytes)
}

/// Computes the checksum of the first `len` bytes.
fn crc32(bytes: &[u8], len: usize) -> (crc: u32)
    requires
        len <= bytes@.len(),
    ensures
        crc == checksum(bytes@.take(len as int)),
{
    proof {
        reveal(checksum);
    }
    let mut crc: u32 = 0xffff_ffff;
    let mut index: usize = 0;
    assert(bytes@.take(0) =~= Seq::<u8>::empty());
    while index < len
        invariant
            index <= len <= bytes@.len(),
            crc == crc_register(bytes@.take(index as int)),
        decreases len - index,
    {
        let ghost before = crc;
        let byte: u8 = bytes[index];
        crc = crc ^ (byte as u32);
        let ghost mixed = crc;
        let mut bit: u8 = 0;
        while bit < 8
            invariant
                bit <= 8,
                crc == crc_bits(mixed, bit as nat),
            decreases 8 - bit,
        {
            crc = if crc & 1 != 0 {
                (crc >> 1) ^ 0xedb8_8320
            } else {
                crc >> 1
            };
            bit = bit + 1;
        }
        proof {
            let longer = bytes@.take(index + 1);
            assert(longer.drop_last() =~= bytes@.take(index as int));
            assert(longer.last() == byte);
        }
        index = index + 1;
    }
    !crc
}

/// Distinct registers stay distinct.
proof fn lemma_crc_bits_injective(left: u32, right: u32, count: nat)
    requires
        left != right,
    ensures
        crc_bits(left, count) != crc_bits(right, count),
    decreases count,
{
    if count > 0 {
        lemma_crc_bits_injective(left, right, (count - 1) as nat);
        let a = crc_bits(left, (count - 1) as nat);
        let b = crc_bits(right, (count - 1) as nat);
        assert(a != b ==> (if a & 1 != 0 {
            (a >> 1) ^ 0xedb8_8320u32
        } else {
            a >> 1
        }) != (if b & 1 != 0 {
            (b >> 1) ^ 0xedb8_8320u32
        } else {
            b >> 1
        })) by (bit_vector);
    }
}

/// Changing any one byte changes the checksum.
pub proof fn checksum_detects_a_changed_byte(bytes: Seq<u8>, index: int, value: u8)
    requires
        0 <= index < bytes.len(),
        value != bytes[index],
    ensures
        checksum(bytes.update(index, value)) != checksum(bytes),
{
    reveal(checksum);
    lemma_register_detects(bytes, index, value);
    let a = crc_register(bytes.update(index, value));
    let b = crc_register(bytes);
    assert(a != b ==> !a != !b) by (bit_vector);
}

proof fn lemma_register_detects(bytes: Seq<u8>, index: int, value: u8)
    requires
        0 <= index < bytes.len(),
        value != bytes[index],
    ensures
        crc_register(bytes.update(index, value)) != crc_register(bytes),
    decreases bytes.len(),
{
    let changed = bytes.update(index, value);
    let last = bytes.last();
    let before = crc_register(bytes.drop_last());
    let before_changed = crc_register(changed.drop_last());
    if index == bytes.len() - 1 {
        assert(changed.drop_last() =~= bytes.drop_last());
        assert(value != last ==> before ^ (value as u32) != before ^ (last as u32))
            by (bit_vector);
        lemma_crc_bits_injective(before ^ (value as u32), before ^ (last as u32), 8);
    } else {
        assert(changed.drop_last() =~= bytes.drop_last().update(index, value));
        lemma_register_detects(bytes.drop_last(), index, value);
        assert(before != before_changed ==> before_changed ^ (last as u32) != before ^ (
        last as u32)) by (bit_vector);
        lemma_crc_bits_injective(before_changed ^ (last as u32), before ^ (last as u32), 8);
    }
}

/// The number that stands for a kind. Profiles beyond the third have none of
/// their own.
pub open spec fn kind_number(kind: RecordKind) -> int {
    match kind {
        RecordKind::Autosave => 0,
        RecordKind::Profile(slot) => if slot <= 2 {
            slot + 1
        } else {
            0
        },
    }
}

/// The kind that a number stands for.
pub open spec fn kind_of_number(number: int) -> RecordKind {
    if number == 0 {
        RecordKind::Autosave
    } else {
        RecordKind::Profile((number - 1) as u8)
    }
}

/// The sequence number with the kind in its two top bits.
pub open spec fn tagged_sequence(record: SettingsRecord) -> u32 {
    (record.sequence % 0x4000_0000 + kind_number(record.kind) * 0x4000_0000) as u32
}

/// A value with its top bit set by `flag`.
pub open spec fn flagged(value: u16, flag: bool) -> u16 {
    if flag && value < 0x8000 {
        (value + 0x8000) as u16
    } else {
        value
    }
}

/// The number that stands for a waveform.
pub open spec fn waveform_number(waveform: AwgWaveform) -> u8 {
    match waveform {
        AwgWaveform::Square => 0,
        AwgWaveform::Triangle => 1,
        AwgWaveform::Ramp => 2,
        AwgWaveform::Sine => 3,
    }
}

/// The waveform that a number stands for.
pub open spec fn waveform_of_number(number: u8) -> AwgWaveform {
    match number {
        0 => AwgWaveform::Square,
        1 => AwgWaveform::Triangle,
        2 => AwgWaveform::Ramp,
        _ => AwgWaveform::Sine,
    }
}

/// The start of a record: its identity and the current limits.
#[verifier::opaque]
pub open spec fn head(record: SettingsRecord) -> Seq<u8> {
    let limits = record.settings.current_limits_ma;
    bytes32(MAGIC) + bytes32(tagged_sequence(record)) + bytes16(limits[0]) + bytes16(limits[1])
        + bytes16(limits[2]) + bytes16(limits[3]) + bytes16(limits[4])
}

/// The start of a record up to the waveform's channel and shape.
#[verifier::opaque]
pub open spec fn middle(record: SettingsRecord) -> Seq<u8> {
    let settings = record.settings;
    head(record) + bytes16(
        flagged(settings.ch4_voltage_mv, settings.ch4_regulation_mode == RegulationMode::Cc),
    ) + bytes16(
        flagged(settings.ch5_voltage_mv, settings.ch5_regulation_mode == RegulationMode::Cc),
    ) + bytes16(
        flagged(
            settings.sink_current_limit_ma,
            settings.temperature_unit == TemperatureUnit::Fahrenheit,
        ),
    ) + seq![settings.awg.channel, waveform_number(settings.awg.waveform)]
}

/// The checksummed part of a record.
#[verifier::opaque]
pub open spec fn body(record: SettingsRecord) -> Seq<u8> {
    let awg = record.settings.awg;
    middle(record) + bytes32(awg.frequency_millihz) + bytes16(awg.low_mv) + bytes16(awg.high_mv)
        + seq![awg.duty_percent, 0xff, 0xff, 0xff, 0xff, 0xff]
}

/// The stored form of a record.
#[verifier::opaque]
pub open spec fn encoded(record: SettingsRecord) -> Seq<u8> {
    body(record) + bytes32(checksum(body(record))) + bytes32(COMMIT)
}

/// True when magic word, checksum and commit word are in place.
pub open spec fn framed(bytes: Seq<u8>) -> bool {
    &&& le32(bytes, 0) == MAGIC
    &&& le32(bytes, 44) == COMMIT
    &&& le32(bytes, 40) == checksum(bytes.take(40))
}

/// The 16-bit value at `offset`.
pub open spec fn half(bytes: Seq<u8>, offset: int) -> int {
    le16(bytes[offset], bytes[offset + 1])
}

/// True of stored settings that the product allows.
pub open spec fn values_allowed(bytes: Seq<u8>) -> bool {
    let channel = bytes[24] as int;
    &&& forall|i: int| 0 <= i < 5 ==> #[trigger] half(bytes, 8 + 2 * i) <= CHANNEL_MAX_CURRENT_MA
    &&& CH4_MIN_VOLTAGE_MV <= half(bytes, 18) % 0x8000 <= CH4_MAX_VOLTAGE_MV
    &&& CH5_MIN_VOLTAGE_MV <= half(bytes, 20) % 0x8000 <= CH5_MAX_VOLTAGE_MV
    &&& half(bytes, 22) % 0x8000 <= SINK_MAX_CURRENT_MA
    &&& channel == 3 || channel == 4
    &&& bytes[25] < 4
    &&& AWG_MIN_FREQUENCY_MILLIHZ <= le32(bytes, 26) <= waveform_of_number(
        bytes[25],
    ).frequency_limit()
    &&& min_voltage(channel) <= half(bytes, 30) <= half(bytes, 32) <= max_voltage(channel)
    &&& 1 <= bytes[34] <= 99
}

/// True of bytes that hold a record.
pub open spec fn acceptable(bytes: Seq<u8>) -> bool {
    framed(bytes) && values_allowed(bytes)
}

/// `record` is what `bytes` hold.
pub open spec fn held_in(record: SettingsRecord, bytes: Seq<u8>) -> bool {
    let settings = record.settings;
    let awg = settings.awg;
    &&& record.sequence == le32(bytes, 4) % 0x4000_0000
    &&& record.kind == kind_of_number(le32(bytes, 4) / 0x4000_0000)
    &&& forall|i: int|
        0 <= i < 5 ==> (#[trigger] settings.current_limits_ma[i]) == half(bytes, 8 + 2 * i)
    &&& settings.ch4_voltage_mv == half(bytes, 18) % 0x8000
    &&& settings.ch5_voltage_mv == half(bytes, 20) % 0x8000
    &&& (settings.ch4_regulation_mode == RegulationMode::Cc) == (half(bytes, 18) >= 0x8000)
    &&& (settings.ch5_regulation_mode == RegulationMode::Cc) == (half(bytes, 20) >= 0x8000)
    &&& settings.sink_current_limit_ma == half(bytes, 22) % 0x8000
    &&& (settings.temperature_unit == TemperatureUnit::Fahrenheit) == (half(bytes, 22) >= 0x8000)
    &&& awg.channel == bytes[24]
    &&& awg.waveform == waveform_of_number(bytes[25])
    &&& awg.frequency_millihz == le32(bytes, 26)
    &&& awg.low_mv == half(bytes, 30)
    &&& awg.high_mv == half(bytes, 32)
    &&& awg.duty_percent == bytes[34]
}

impl PersistentSettings {
    /// True of settings that the product allows.
    pub open spec fn allowed(self) -> bool {
        &&& forall|i: int|
            0 <= i < 5 ==> (#[trigger] self.current_limits_ma[i]) <= CHANNEL_MAX_CURRENT_MA
        &&& CH4_MIN_VOLTAGE_MV <= self.ch4_voltage_mv <= CH4_MAX_VOLTAGE_MV
        &&& CH5_MIN_VOLTAGE_MV <= self.ch5_voltage_mv <= CH5_MAX_VOLTAGE_MV
        &&& self.sink_current_limit_ma <= SINK_MAX_CURRENT_MA
        &&& self.awg.wf()
    }
}

fn append16(bytes: &mut Vec<u8>, value: u16)
    ensures
        final(bytes)@ == old(bytes)@ + bytes16(value),
{
    let pair: [u8; 2] = to_bytes16(value);
    bytes.extend_from_slice(pair.as_slice());
    assert(bytes@ =~= old(bytes)@ + bytes16(value));
}

fn append32(bytes: &mut Vec<u8>, value: u32)
    ensures
        final(bytes)@ == old(bytes)@ + bytes32(value),
{
    let quad: [u8; 4] = to_bytes32(value);
    bytes.extend_from_slice(quad.as_slice());
    assert(bytes@ =~= old(bytes)@ + bytes32(value));
}

fn flag_value(value: u16, flag: bool) -> (result: u16)
    ensures
        result == flagged(value, flag),
{
    if flag && value < 0x8000 {
        value + 0x8000
    } else {
        value
    }
}

/// The stored form of a record.
pub fn encode(record: SettingsRecord) -> (bytes: [u8; RECORD_SIZE])
    ensures
        bytes@ == encoded(record),
{
    proof {
        reveal(head);
        reveal(middle);
        reveal(body);
        reveal(encoded);
    }
    let settings = record.settings;
    let awg = settings.awg;
    let mut out: Vec<u8> = Vec::new();
    assert(out@ + bytes32(MAGIC) =~= bytes32(MAGIC));
    append32(&mut out, MAGIC);
    let kind: u32 = match record.kind {
        RecordKind::Autosave => 0,
        RecordKind::Profile(slot) => if slot <= 2 {
            slot as u32 + 1
        } else {
            0
        },
    };
    append32(&mut out, record.sequence % 0x4000_0000 + kind * 0x4000_0000);
    append16(&mut out, settings.current_limits_ma[0]);
    append16(&mut out, settings.current_limits_ma[1]);
    append16(&mut out, settings.current_limits_ma[2]);
    append16(&mut out, settings.current_limits_ma[3]);
    append16(&mut out, settings.current_limits_ma[4]);
    append16(
        &mut out,
        flag_value(settings.ch4_voltage_mv, settings.ch4_regulation_mode == RegulationMode::Cc),
    );
    append16(
        &mut out,
        flag_value(settings.ch5_voltage_mv, settings.ch5_regulation_mode == RegulationMode::Cc),
    );
    append16(
        &mut out,
        flag_value(
            settings.sink_current_limit_ma,
            settings.temperature_unit == TemperatureUnit::Fahrenheit,
        ),
    );
    let waveform: u8 = match awg.waveform {
        AwgWaveform::Square => 0,
        AwgWaveform::Triangle => 1,
        AwgWaveform::Ramp => 2,
        AwgWaveform::Sine => 3,
    };
    let ghost before = out@;
    out.push(awg.channel);
    out.push(waveform);
    assert(out@ =~= before + seq![awg.channel, waveform]);
    append32(&mut out, awg.frequency_millihz);
    append16(&mut out, awg.low_mv);
    append16(&mut out, awg.high_mv);
    let ghost before = out@;
    out.push(awg.duty_percent);
    out.push(0xff);
    out.push(0xff);
    out.push(0xff);
    out.push(0xff);
    out.push(0xff);
    assert(out@ =~= before + seq![awg.duty_percent, 0xffu8, 0xffu8, 0xffu8, 0xffu8, 0xffu8]);
    assert(out@ == body(record));
    assert(out@.len() == 40);
    assert(out@.take(40) =~= out@);
    let crc: u32 = crc32(out.as_slice(), 40);
    append32(&mut out, crc);
    append32(&mut out, COMMIT);
    let mut bytes: [u8; RECORD_SIZE] = [0xff;RECORD_SIZE];
    let mut index: usize = 0;
    while index < RECORD_SIZE
        invariant
            index <= RECORD_SIZE,
            out@.len() == RECORD_SIZE,
            forall|i: int| 0 <= i < index ==> #[trigger] bytes[i] == out@[i],
        decreases RECORD_SIZE - index,
    {
        bytes[index] = out[index];
        index = index + 1;
    }
    assert(bytes@ =~= out@);
    bytes
}

fn limits_allowed(bytes: &[u8; RECORD_SIZE]) -> (allowed: bool)
    ensures
        allowed == forall|i: int|
            0 <= i < 5 ==> #[trigger] half(bytes@, 8 + 2 * i) <= CHANNEL_MAX_CURRENT_MA,
{
    let mut index: usize = 0;
    while index < 5
        invariant
            index <= 5,
            forall|i: int|
                0 <= i < index ==> #[trigger] half(bytes@, 8 + 2 * i) <= CHANNEL_MAX_CURRENT_MA,
        decreases 5 - index,
    {
        let limit: u16 = u16_at(bytes.as_slice(), 8 + 2 * index);
        assert(limit == half(bytes@, 8 + 2 * index as int));
        if limit > CHANNEL_MAX_CURRENT_MA {
            return false;
        }
        index = index + 1;
    }
    true
}

fn is_framed(bytes: &[u8; RECORD_SIZE]) -> (framed_here: bool)
    ensures
        framed_here == framed(bytes@),
{
    let all = bytes.as_slice();
    u32_at(all, 0) == MAGIC && u32_at(all, 44) == COMMIT && u32_at(all, 40) == crc32(all, 40)
}

/// The record that `bytes` hold. A torn, corrupt or out-of-range record is
/// none.
pub fn decode(bytes: &[u8; RECORD_SIZE]) -> (record: Option<SettingsRecord>)
    ensures
        record is Some <==> acceptable(bytes@),
        record matches Some(found) ==> held_in(found, bytes@) && found.settings.allowed(),
{
    if !is_framed(bytes) {
        return None;
    }
    let all = bytes.as_slice();
    let ch4_voltage_and_mode: u16 = u16_at(all, 18);
    let ch5_voltage_and_mode: u16 = u16_at(all, 20);
    let tagged: u32 = u32_at(all, 4);
    let number: u32 = tagged / 0x4000_0000;
    let kind = if number == 0 {
        RecordKind::Autosave
    } else {
        RecordKind::Profile((number - 1) as u8)
    };
    let sink_limit_and_unit: u16 = u16_at(all, 22);
    let waveform = match bytes[25] {
        0 => AwgWaveform::Square,
        1 => AwgWaveform::Triangle,
        2 => AwgWaveform::Ramp,
        3 => AwgWaveform::Sine,
        _ => {
            return None;
        },
    };
    let settings = PersistentSettings {
        current_limits_ma: [
            u16_at(all, 8),
            u16_at(all, 10),
            u16_at(all, 12),
            u16_at(all, 14),
            u16_at(all, 16),
        ],
        ch4_voltage_mv: ch4_voltage_and_mode % 0x8000,
        ch5_voltage_mv: ch5_voltage_and_mode % 0x8000,
        ch4_regulation_mode: if ch4_voltage_and_mode >= 0x8000 {
            RegulationMode::Cc
        } else {
            RegulationMode::Cv
        },
        ch5_regulation_mode: if ch5_voltage_and_mode >= 0x8000 {
            RegulationMode::Cc
        } else {
            RegulationMode::Cv
        },
        sink_current_limit_ma: sink_limit_and_unit % 0x8000,
        temperature_unit: if sink_limit_and_unit >= 0x8000 {
            TemperatureUnit::Fahrenheit
        } else {
            TemperatureUnit::Celsius
        },
        awg: AwgConfig {
            channel: bytes[24],
            waveform,
            frequency_millihz: u32_at(all, 26),
            low_mv: u16_at(all, 30),
            high_mv: u16_at(all, 32),
            duty_percent: bytes[34],
        },
    };
    let awg = settings.awg;
    let range = voltage_range(awg.channel);
    if !limits_allowed(bytes) || settings.ch4_voltage_mv < CH4_MIN_VOLTAGE_MV
        || settings.ch4_voltage_mv > CH4_MAX_VOLTAGE_MV || settings.ch5_voltage_mv
        < CH5_MIN_VOLTAGE_MV || settings.ch5_voltage_mv > CH5_MAX_VOLTAGE_MV
        || settings.sink_current_limit_ma > SINK_MAX_CURRENT_MA || (awg.channel != 3 && awg.channel
        != 4) || awg.low_mv < range.0 || awg.low_mv > awg.high_mv || awg.high_mv > range.1
        || awg.duty_percent < 1 || awg.duty_percent > 99 || awg.frequency_millihz
        < AWG_MIN_FREQUENCY_MILLIHZ || awg.frequency_millihz > waveform.max_frequency_millihz() {
        return None;
    }
    assert forall|i: int| 0 <= i < 5 implies (#[trigger] settings.current_limits_ma[i]) == half(
        bytes@,
        8 + 2 * i,
    ) by {}
    Some(SettingsRecord { sequence: tagged % 0x4000_0000, kind, settings })
}

/// Two records held in the same bytes are the same.
pub proof fn lemma_held_is_unique(left: SettingsRecord, right: SettingsRecord, bytes: Seq<u8>)
    requires
        held_in(left, bytes),
        held_in(right, bytes),
    ensures
        left == right,
{
    assert(left.settings.current_limits_ma =~= right.settings.current_limits_ma);
}

/// True of the records that can be told apart once stored.
pub open spec fn storable(record: SettingsRecord) -> bool {
    &&& record.sequence < 0x4000_0000
    &&& record.kind matches RecordKind::Profile(slot) ==> slot <= 2
    &&& record.settings.allowed()
}

proof fn lemma_head(record: SettingsRecord, bytes: Seq<u8>)
    requires
        head(record).is_prefix_of(bytes),
    ensures
        ({
            let limits = record.settings.current_limits_ma;
            &&& head(record).len() == 18
            &&& le32(bytes, 0) == MAGIC
            &&& le32(bytes, 4) == tagged_sequence(record)
            &&& half(bytes, 8) == limits[0]
            &&& half(bytes, 10) == limits[1]
            &&& half(bytes, 12) == limits[2]
            &&& half(bytes, 14) == limits[3]
            &&& half(bytes, 16) == limits[4]
        }),
{
    reveal(head);
    let limits = record.settings.current_limits_ma;
    let p0 = bytes32(MAGIC);
    let p1 = p0 + bytes32(tagged_sequence(record));
    let p2 = p1 + bytes16(limits[0]);
    let p3 = p2 + bytes16(limits[1]);
    let p4 = p3 + bytes16(limits[2]);
    let p5 = p4 + bytes16(limits[3]);
    lemma_part16(p5, limits[4], bytes);
    lemma_part16(p4, limits[3], bytes);
    lemma_part16(p3, limits[2], bytes);
    lemma_part16(p2, limits[1], bytes);
    lemma_part16(p1, limits[0], bytes);
    lemma_part32(p0, tagged_sequence(record), bytes);
    assert(Seq::<u8>::empty() + p0 =~= p0);
    lemma_part32(Seq::empty(), MAGIC, bytes);
}

proof fn lemma_middle(record: SettingsRecord, bytes: Seq<u8>)
    requires
        middle(record).is_prefix_of(bytes),
    ensures
        ({
            let settings = record.settings;
            &&& middle(record).len() == 26
            &&& head(record).is_prefix_of(bytes)
            &&& half(bytes, 18) == flagged(
                settings.ch4_voltage_mv,
                settings.ch4_regulation_mode == RegulationMode::Cc,
            )
            &&& half(bytes, 20) == flagged(
                settings.ch5_voltage_mv,
                settings.ch5_regulation_mode == RegulationMode::Cc,
            )
            &&& half(bytes, 22) == flagged(
                settings.sink_current_limit_ma,
                settings.temperature_unit == TemperatureUnit::Fahrenheit,
            )
            &&& bytes[24] == settings.awg.channel
            &&& bytes[25] == waveform_number(settings.awg.waveform)
        }),
{
    reveal(middle);
    let settings = record.settings;
    let ch4 = flagged(
        settings.ch4_voltage_mv,
        settings.ch4_regulation_mode == RegulationMode::Cc,
    );
    let ch5 = flagged(
        settings.ch5_voltage_mv,
        settings.ch5_regulation_mode == RegulationMode::Cc,
    );
    let sink = flagged(
        settings.sink_current_limit_ma,
        settings.temperature_unit == TemperatureUnit::Fahrenheit,
    );
    let shape = seq![settings.awg.channel, waveform_number(settings.awg.waveform)];
    let p0 = head(record);
    let p1 = p0 + bytes16(ch4);
    let p2 = p1 + bytes16(ch5);
    let p3 = p2 + bytes16(sink);
    lemma_part(p3, shape, bytes);
    lemma_part16(p2, sink, bytes);
    lemma_part16(p1, ch5, bytes);
    lemma_part16(p0, ch4, bytes);
    lemma_head(record, bytes);
    assert(bytes[p3.len() as int + 0] == shape[0]);
    assert(bytes[p3.len() as int + 1] == shape[1]);
}

proof fn lemma_body(record: SettingsRecord, bytes: Seq<u8>)
    requires
        body(record).is_prefix_of(bytes),
    ensures
        ({
            let awg = record.settings.awg;
            &&& body(record).len() == 40
            &&& middle(record).is_prefix_of(bytes)
            &&& le32(bytes, 26) == awg.frequency_millihz
            &&& half(bytes, 30) == awg.low_mv
            &&& half(bytes, 32) == awg.high_mv
            &&& bytes[34] == awg.duty_percent
        }),
{
    reveal(body);
    let awg = record.settings.awg;
    let rest = seq![awg.duty_percent, 0xffu8, 0xffu8, 0xffu8, 0xffu8, 0xffu8];
    let p0 = middle(record);
    let p1 = p0 + bytes32(awg.frequency_millihz);
    let p2 = p1 + bytes16(awg.low_mv);
    let p3 = p2 + bytes16(awg.high_mv);
    lemma_part(p3, rest, bytes);
    lemma_part16(p2, awg.high_mv, bytes);
    lemma_part16(p1, awg.low_mv, bytes);
    lemma_part32(p0, awg.frequency_millihz, bytes);
    lemma_middle(record, bytes);
    assert(bytes[p3.len() as int + 0] == rest[0]);
}

proof fn lemma_encoded(record: SettingsRecord)
    ensures
        ({
            let bytes = encoded(record);
            &&& body(record).len() == 40
            &&& bytes.len() == 48
            &&& body(record).is_prefix_of(bytes)
            &&& bytes.take(40) == body(record)
            &&& le32(bytes, 40) == checksum(body(record))
            &&& le32(bytes, 44) == COMMIT
        }),
{
    reveal(encoded);
    let bytes = encoded(record);
    let p0 = body(record);
    let p1 = p0 + bytes32(checksum(p0));
    lemma_part32(p1, COMMIT, bytes);
    lemma_part32(p0, checksum(p0), bytes);
    lemma_body(record, bytes);
    assert(bytes.take(40) =~= p0);
}

/// Everything that an encoded record holds, where a reader looks for it.
pub proof fn lemma_layout(record: SettingsRecord)
    ensures
        framed(encoded(record)),
        encoded(record).len() == 48,
        body(record).len() == 40,
        encoded(record).take(40) == body(record),
        le32(encoded(record), 40) == checksum(body(record)),
{
    lemma_encoded(record);
    lemma_body(record, encoded(record));
    lemma_middle(record, encoded(record));
    lemma_head(record, encoded(record));
}

/// `part` stands in `bytes` right after `before`.
proof fn lemma_part(before: Seq<u8>, part: Seq<u8>, bytes: Seq<u8>)
    requires
        (before + part).is_prefix_of(bytes),
    ensures
        before.is_prefix_of(bytes),
        forall|i: int| 0 <= i < part.len() ==> #[trigger] bytes[before.len() + i] == part[i],
{
    assert forall|i: int| 0 <= i < part.len() implies #[trigger] bytes[before.len() + i]
        == part[i] by {
        assert((before + part)[before.len() + i] == part[i]);
        assert(bytes[before.len() + i] == (before + part)[before.len() + i]);
    }
    assert(before =~= bytes.take(before.len() as int)) by {
        assert forall|i: int| 0 <= i < before.len() implies before[i] == bytes[i] by {
            assert((before + part)[i] == before[i]);
        }
    }
}

/// A 16-bit value stands in `bytes` right after `before`.
proof fn lemma_part16(before: Seq<u8>, value: u16, bytes: Seq<u8>)
    requires
        (before + bytes16(value)).is_prefix_of(bytes),
    ensures
        before.is_prefix_of(bytes),
        half(bytes, before.len() as int) == value,
{
    lemma_part(before, bytes16(value), bytes);
    assert(bytes[before.len() as int + 0] == bytes16(value)[0]);
    assert(bytes[before.len() as int + 1] == bytes16(value)[1]);
}

/// A 32-bit value stands in `bytes` right after `before`.
proof fn lemma_part32(before: Seq<u8>, value: u32, bytes: Seq<u8>)
    requires
        (before + bytes32(value)).is_prefix_of(bytes),
    ensures
        before.is_prefix_of(bytes),
        le32(bytes, before.len() as int) == value,
{
    lemma_part(before, bytes32(value), bytes);
    assert(bytes[before.len() as int + 0] == bytes32(value)[0]);
    assert(bytes[before.len() as int + 1] == bytes32(value)[1]);
    assert(bytes[before.len() as int + 2] == bytes32(value)[2]);
    assert(bytes[before.len() as int + 3] == bytes32(value)[3]);
}


/// The tag holds a storable record's sequence number and kind.
proof fn lemma_tag(record: SettingsRecord)
    requires
        storable(record),
    ensures
        tagged_sequence(record) % 0x4000_0000 == record.sequence,
        kind_of_number(tagged_sequence(record) as int / 0x4000_0000) == record.kind,
{
}

proof fn lemma_limits(record: SettingsRecord)
    ensures
        forall|i: int|
            0 <= i < 5 ==> (#[trigger] record.settings.current_limits_ma[i]) == half(
                encoded(record),
                8 + 2 * i,
            ),
{
    let bytes = encoded(record);
    lemma_encoded(record);
    lemma_body(record, bytes);
    lemma_middle(record, bytes);
    lemma_head(record, bytes);
    let limits = record.settings.current_limits_ma;
    assert forall|i: int| 0 <= i < 5 implies (#[trigger] limits[i]) == half(bytes, 8 + 2 * i) by {
        assert(i == 0 || i == 1 || i == 2 || i == 3 || i == 4);
    }
}

/// A flag beside a 15-bit value changes neither.
proof fn lemma_flagged(value: u16, flag: bool)
    requires
        value < 0x8000,
    ensures
        flagged(value, flag) % 0x8000 == value,
        (flagged(value, flag) >= 0x8000) == flag,
{
}

proof fn lemma_stored_identity(record: SettingsRecord)
    requires
        storable(record),
    ensures
        record.sequence == le32(encoded(record), 4) % 0x4000_0000,
        record.kind == kind_of_number(le32(encoded(record), 4) / 0x4000_0000),
{
    let bytes = encoded(record);
    lemma_tag(record);
    lemma_encoded(record);
    lemma_body(record, bytes);
    lemma_middle(record, bytes);
    lemma_head(record, bytes);
}

proof fn lemma_stored_outputs(record: SettingsRecord)
    requires
        storable(record),
    ensures
        ({
            let bytes = encoded(record);
            let settings = record.settings;
            &&& settings.ch4_voltage_mv == half(bytes, 18) % 0x8000
            &&& settings.ch5_voltage_mv == half(bytes, 20) % 0x8000
            &&& (settings.ch4_regulation_mode == RegulationMode::Cc) == (half(bytes, 18) >= 0x8000)
            &&& (settings.ch5_regulation_mode == RegulationMode::Cc) == (half(bytes, 20) >= 0x8000)
            &&& settings.sink_current_limit_ma == half(bytes, 22) % 0x8000
            &&& (settings.temperature_unit == TemperatureUnit::Fahrenheit) == (half(bytes, 22)
                >= 0x8000)
        }),
{
    let bytes = encoded(record);
    let settings = record.settings;
    lemma_encoded(record);
    lemma_body(record, bytes);
    lemma_middle(record, bytes);
    lemma_flagged(
        settings.ch4_voltage_mv,
        settings.ch4_regulation_mode == RegulationMode::Cc,
    );
    lemma_flagged(
        settings.ch5_voltage_mv,
        settings.ch5_regulation_mode == RegulationMode::Cc,
    );
    lemma_flagged(
        settings.sink_current_limit_ma,
        settings.temperature_unit == TemperatureUnit::Fahrenheit,
    );
}

proof fn lemma_stored_awg(record: SettingsRecord)
    ensures
        ({
            let bytes = encoded(record);
            let awg = record.settings.awg;
            &&& awg.channel == bytes[24]
            &&& awg.waveform == waveform_of_number(bytes[25])
            &&& awg.frequency_millihz == le32(bytes, 26)
            &&& awg.low_mv == half(bytes, 30)
            &&& awg.high_mv == half(bytes, 32)
            &&& awg.duty_percent == bytes[34]
        }),
{
    let bytes = encoded(record);
    lemma_encoded(record);
    lemma_body(record, bytes);
    lemma_middle(record, bytes);
}

proof fn lemma_stored_is_held(record: SettingsRecord)
    requires
        storable(record),
    ensures
        held_in(record, encoded(record)),
{
    lemma_stored_identity(record);
    lemma_limits(record);
    lemma_stored_outputs(record);
    lemma_stored_awg(record);
}

proof fn lemma_held_is_allowed(record: SettingsRecord)
    requires
        storable(record),
        held_in(record, encoded(record)),
    ensures
        values_allowed(encoded(record)),
{
    let bytes = encoded(record);
    let settings = record.settings;
    lemma_encoded(record);
    lemma_body(record, bytes);
    lemma_middle(record, bytes);
    assert forall|i: int| 0 <= i < 5 implies #[trigger] half(bytes, 8 + 2 * i)
        <= CHANNEL_MAX_CURRENT_MA by {
        assert(half(bytes, 8 + 2 * i) == settings.current_limits_ma[i]);
    }
}

/// Reading back a stored record gives exactly that record.
pub proof fn stored_records_read_back(record: SettingsRecord, found: SettingsRecord)
    requires
        storable(record),
    ensures
        acceptable(encoded(record)),
        held_in(record, encoded(record)),
        held_in(found, encoded(record)) ==> found == record,
{
    lemma_layout(record);
    lemma_stored_is_held(record);
    lemma_held_is_allowed(record);
    if held_in(found, encoded(record)) {
        lemma_held_is_unique(found, record, encoded(record));
    }
}

/// A stored record with any one byte changed is never read back, whether it is
/// a byte of the data, of the checksum or of the commit word.
pub proof fn a_changed_byte_is_never_read_back(record: SettingsRecord, index: int, value: u8)
    requires
        0 <= index < RECORD_SIZE,
        value != encoded(record)[index],
    ensures
        !acceptable(encoded(record).update(index, value)),
{
    lemma_layout(record);
    let bytes = encoded(record);
    let changed = bytes.update(index, value);
    if index < 40 {
        checksum_detects_a_changed_byte(body(record), index, value);
        assert(changed.take(40) =~= body(record).update(index, value));
        assert(le32(changed, 40) == le32(bytes, 40));
    } else if index < 44 {
        assert(changed.take(40) =~= body(record));
        assert(le32(changed, 40) != le32(bytes, 40));
    } else {
        assert(le32(changed, 44) != le32(bytes, 44));
    }
}

} // verus!
