//! How the power hardware carries out one driver operation: a program that
//! names the next step on pins and buses from the replies so far.

use crate::power::{tps55289_current_code, tps55289_voltage_code, DriverOperation, Rail};
use crate::tps55289::{current_code, output_mode, pwm_mode, voltage_code};
use vstd::prelude::*;

verus! {

pub const TPS_DC1: u8 = 0x75;

pub const TPS_DC2: u8 = 0x74;

pub const TPS_CH5: u8 = 0x75;

/// The converter of the adjustable low channel.
pub const DAC_ADDRESS: u8 = 0x60;

/// The current limit of a shared rail, in its converter.
pub const RAIL_CURRENT_LIMIT_MA: u16 = 5_000;

/// How long the hardware takes to settle.
pub const SETTLE_MS: u8 = 50;

/// The pause before a transfer is tried again.
pub const RETRY_PAUSE_US: u32 = 100;

pub const REF_LSB: u8 = 0x00;

pub const REF_MSB: u8 = 0x01;

pub const IOUT_LIMIT: u8 = 0x02;

pub const VOUT_SR: u8 = 0x03;

pub const VOUT_FS: u8 = 0x04;

pub const MODE: u8 = 0x06;

pub const STATUS: u8 = 0x07;

#[derive(Clone, Copy, Debug, PartialEq, Eq, Structural)]
pub enum HardwareError {
    Bus,
    Verify,
}

#[derive(Clone, Copy, Debug, PartialEq, Eq, Structural)]
pub enum Port {
    A,
    B,
    C,
}

#[derive(Clone, Copy, Debug, PartialEq, Eq, Structural)]
pub enum PowerBus {
    Shared,
    Adjustable,
}

/// One step of a program.
#[derive(Clone, Copy, Debug, PartialEq, Eq)]
pub enum HardwareStep {
    SetPin { port: Port, pin: u8, high: bool },
    PinLevel { port: Port, pin: u8 },
    ReadRegister { bus: PowerBus, address: u8, register: u8 },
    ReadPair { bus: PowerBus, address: u8, register: u8 },
    WriteRegister { bus: PowerBus, address: u8, register: u8, value: u8 },
    WritePair { bus: PowerBus, address: u8, first: u8, second: u8 },
    WriteTriple { bus: PowerBus, address: u8, first: u8, second: u8, third: u8 },
    WaitMs(u8),
    WaitUs(u32),
    /// The operation is over. `retries` counts the transfers that had to be
    /// repeated.
    Finish { result: Result<(), HardwareError>, retries: u32 },
}

/// What a step brought.
#[derive(Clone, Copy, Debug, PartialEq, Eq, Structural)]
pub enum HardwareReply {
    Done,
    NoAcknowledge,
    Byte(u8),
    Pair(u8, u8),
    Level(bool),
}

/// How far a stage of a program has come.
pub enum Progress {
    /// This step comes next.
    Ask(HardwareStep),
    /// The operation has failed.
    Failed(HardwareError),
    /// The stage is through; the next one begins.
    Through,
}

pub open spec fn finished(result: Result<(), HardwareError>) -> HardwareStep {
    HardwareStep::Finish { result, retries: 0 }
}

fn finish(result: Result<(), HardwareError>) -> (step: HardwareStep)
    ensures
        step == finished(result),
{
    HardwareStep::Finish { result, retries: 0 }
}

/// The pin that gates a channel.
pub open spec fn gate_pin(channel: u8) -> Option<(Port, u8)> {
    match channel {
        0 => Some((Port::C, 12)),
        1 => Some((Port::A, 15)),
        2 => Some((Port::B, 15)),
        3 => Some((Port::B, 6)),
        _ => None,
    }
}

/// The pin that enables a rail.
pub open spec fn rail_pin(rail: Rail) -> (Port, u8) {
    match rail {
        Rail::Dc1 => (Port::C, 13),
        Rail::Dc2 => (Port::B, 2),
    }
}

/// The bus address of a rail's converter.
pub open spec fn rail_address(rail: Rail) -> u8 {
    match rail {
        Rail::Dc1 => TPS_DC1,
        Rail::Dc2 => TPS_DC2,
    }
}

/// The value that sets or clears a pin through its port's set and reset
/// register.
pub open spec fn set_reset_bits(pin: u8, high: bool) -> u32 {
    if high {
        1u32 << pin
    } else {
        1u32 << ((pin + 16) as u8)
    }
}

pub fn pin_bits(pin: u8, high: bool) -> (bits: u32)
    requires
        pin < 16,
    ensures
        bits == set_reset_bits(pin, high),
{
    if high {
        1u32 << pin
    } else {
        1u32 << (pin + 16)
    }
}

/// A pin is driven and read back; where `settle` is set, the hardware is given
/// time afterwards.
pub open spec fn drive_pin(
    port: Port,
    pin: u8,
    high: bool,
    settle: bool,
    replies: Seq<HardwareReply>,
) -> HardwareStep {
    if replies.len() == 0 {
        HardwareStep::SetPin { port, pin, high }
    } else if replies.len() == 1 {
        HardwareStep::PinLevel { port, pin }
    } else if replies[1] != HardwareReply::Level(high) {
        finished(Err(HardwareError::Verify))
    } else {
        settled(settle, replies, 2)
    }
}

/// The end of an operation, after a pause where `settle` is set.
pub open spec fn settled(settle: bool, replies: Seq<HardwareReply>, at: int) -> HardwareStep {
    if settle && replies.len() <= at {
        HardwareStep::WaitMs(SETTLE_MS)
    } else {
        finished(Ok(()))
    }
}

fn next_settled(settle: bool, replies: &Vec<HardwareReply>, at: usize) -> (step: HardwareStep)
    ensures
        step == settled(settle, replies@, at as int),
{
    if settle && replies.len() <= at {
        HardwareStep::WaitMs(SETTLE_MS)
    } else {
        finish(Ok(()))
    }
}

fn next_drive_pin(
    port: Port,
    pin: u8,
    high: bool,
    settle: bool,
    replies: &Vec<HardwareReply>,
) -> (step: HardwareStep)
    ensures
        step == drive_pin(port, pin, high, settle, replies@),
{
    if replies.len() == 0 {
        HardwareStep::SetPin { port, pin, high }
    } else if replies.len() == 1 {
        HardwareStep::PinLevel { port, pin }
    } else if replies[1] != HardwareReply::Level(high) {
        finish(Err(HardwareError::Verify))
    } else {
        next_settled(settle, replies, 2)
    }
}

/// Registers are written one after the other, and each is read back before the
/// next one is touched.
pub open spec fn verified_writes(
    bus: PowerBus,
    address: u8,
    writes: Seq<(u8, u8)>,
    from: int,
    replies: Seq<HardwareReply>,
    at: int,
) -> Progress
    decreases writes.len() - from,
{
    if from >= writes.len() {
        Progress::Through
    } else {
        let (register, value) = writes[from];
        if replies.len() <= at {
            Progress::Ask(HardwareStep::WriteRegister { bus, address, register, value })
        } else if replies[at] != HardwareReply::Done {
            Progress::Failed(HardwareError::Bus)
        } else if replies.len() == at + 1 {
            Progress::Ask(HardwareStep::ReadRegister { bus, address, register })
        } else {
            match replies[at + 1] {
                HardwareReply::Byte(found) => if found == value {
                    verified_writes(bus, address, writes, from + 1, replies, at + 2)
                } else {
                    Progress::Failed(HardwareError::Verify)
                },
                _ => Progress::Failed(HardwareError::Bus),
            }
        }
    }
}

fn next_verified_writes(
    bus: PowerBus,
    address: u8,
    writes: &Vec<(u8, u8)>,
    replies: &Vec<HardwareReply>,
    at: usize,
) -> (progress: Progress)
    requires
        at + 2 * writes@.len() <= 0xffff,
    ensures
        progress == verified_writes(bus, address, writes@, 0, replies@, at as int),
{
    let mut from: usize = 0;
    let mut position: usize = at;
    while from < writes.len()
        invariant
            from <= writes@.len(),
            position == at + 2 * from,
            at + 2 * writes@.len() <= 0xffff,
            verified_writes(bus, address, writes@, 0, replies@, at as int) == verified_writes(
                bus,
                address,
                writes@,
                from as int,
                replies@,
                position as int,
            ),
        decreases writes@.len() - from,
    {
        let (register, value) = writes[from];
        if replies.len() <= position {
            return Progress::Ask(HardwareStep::WriteRegister { bus, address, register, value });
        }
        if replies[position] != HardwareReply::Done {
            return Progress::Failed(HardwareError::Bus);
        }
        if replies.len() == position + 1 {
            return Progress::Ask(HardwareStep::ReadRegister { bus, address, register });
        }
        match replies[position + 1] {
            HardwareReply::Byte(found) => {
                if found != value {
                    return Progress::Failed(HardwareError::Verify);
                }
            },
            _ => {
                return Progress::Failed(HardwareError::Bus);
            },
        }
        from = from + 1;
        position = position + 2;
    }
    Progress::Through
}

/// The registers that configure a converter, in the order in which they are
/// written: full scale first, and the mode, which may switch the output on,
/// last.
pub open spec fn configuration(
    millivolts: u16,
    current_limit_ma: u16,
    enable_output: bool,
    forced_pwm: bool,
    vout_fs: u8,
    mode: u8,
    slew: u8,
) -> Seq<(u8, u8)> {
    seq![
        (VOUT_FS, (vout_fs & !0x83) | 0x03),
        (REF_LSB, (voltage_code(millivolts) % 0x100) as u8),
        (REF_MSB, (voltage_code(millivolts) / 0x100) as u8),
        (IOUT_LIMIT, current_code(current_limit_ma) as u8),
        (
            VOUT_SR,
            if forced_pwm {
                (slew & !0x03) | 0x03
            } else {
                slew
            },
        ),
        (MODE, pwm_mode(output_mode(mode, enable_output), forced_pwm)),
    ]
}

fn configuration_writes(
    millivolts: u16,
    current_limit_ma: u16,
    enable_output: bool,
    forced_pwm: bool,
    vout_fs: u8,
    mode: u8,
    slew: u8,
) -> (writes: Vec<(u8, u8)>)
    ensures
        writes@ == configuration(
            millivolts,
            current_limit_ma,
            enable_output,
            forced_pwm,
            vout_fs,
            mode,
            slew,
        ),
{
    let code: u16 = tps55289_voltage_code(millivolts);
    let mode: u8 = if enable_output {
        mode | 0x80
    } else {
        mode & !0x80
    };
    let mode: u8 = if forced_pwm {
        mode | 0x02
    } else {
        mode & !0x02
    };
    let mut writes: Vec<(u8, u8)> = Vec::new();
    writes.push((VOUT_FS, (vout_fs & !0x83) | 0x03));
    writes.push((REF_LSB, (code % 0x100) as u8));
    writes.push((REF_MSB, (code / 0x100) as u8));
    writes.push((IOUT_LIMIT, tps55289_current_code(current_limit_ma)));
    writes.push(
        (
            VOUT_SR,
            if forced_pwm {
                (slew & !0x03) | 0x03
            } else {
                slew
            },
        ),
    );
    writes.push((MODE, mode));
    writes
}

/// A converter is configured: its registers are read, then written.
pub open spec fn configure(
    bus: PowerBus,
    address: u8,
    millivolts: u16,
    current_limit_ma: u16,
    enable_output: bool,
    forced_pwm: bool,
    settle: bool,
    replies: Seq<HardwareReply>,
) -> HardwareStep {
    if replies.len() == 0 {
        HardwareStep::ReadRegister { bus, address, register: VOUT_FS }
    } else if !(replies[0] is Byte) {
        finished(Err(HardwareError::Bus))
    } else if replies.len() == 1 {
        HardwareStep::ReadRegister { bus, address, register: MODE }
    } else if !(replies[1] is Byte) {
        finished(Err(HardwareError::Bus))
    } else if replies.len() == 2 {
        HardwareStep::ReadRegister { bus, address, register: VOUT_SR }
    } else if !(replies[2] is Byte) {
        finished(Err(HardwareError::Bus))
    } else {
        match verified_writes(
            bus,
            address,
            configuration(
                millivolts,
                current_limit_ma,
                enable_output,
                forced_pwm,
                replies[0]->Byte_0,
                replies[1]->Byte_0,
                replies[2]->Byte_0,
            ),
            0,
            replies,
            3,
        ) {
            Progress::Ask(step) => step,
            Progress::Failed(error) => finished(Err(error)),
            Progress::Through => settled(settle, replies, 15),
        }
    }
}

fn tps_configure(
    bus: PowerBus,
    address: u8,
    millivolts: u16,
    current_limit_ma: u16,
    enable_output: bool,
    forced_pwm: bool,
    settle: bool,
    replies: &Vec<HardwareReply>,
) -> (step: HardwareStep)
    ensures
        step == configure(
            bus,
            address,
            millivolts,
            current_limit_ma,
            enable_output,
            forced_pwm,
            settle,
            replies@,
        ),
{
    if replies.len() == 0 {
        return HardwareStep::ReadRegister { bus, address, register: VOUT_FS };
    }
    let vout_fs: u8 = match replies[0] {
        HardwareReply::Byte(value) => value,
        _ => {
            return finish(Err(HardwareError::Bus));
        },
    };
    if replies.len() == 1 {
        return HardwareStep::ReadRegister { bus, address, register: MODE };
    }
    let mode: u8 = match replies[1] {
        HardwareReply::Byte(value) => value,
        _ => {
            return finish(Err(HardwareError::Bus));
        },
    };
    if replies.len() == 2 {
        return HardwareStep::ReadRegister { bus, address, register: VOUT_SR };
    }
    let slew: u8 = match replies[2] {
        HardwareReply::Byte(value) => value,
        _ => {
            return finish(Err(HardwareError::Bus));
        },
    };
    let writes = configuration_writes(
        millivolts,
        current_limit_ma,
        enable_output,
        forced_pwm,
        vout_fs,
        mode,
        slew,
    );
    match next_verified_writes(bus, address, &writes, replies, 3) {
        Progress::Ask(step) => step,
        Progress::Failed(error) => finish(Err(error)),
        Progress::Through => next_settled(settle, replies, 15),
    }
}

/// A converter's output is switched: the mode is read, changed, and read back.
pub open spec fn set_output(
    bus: PowerBus,
    address: u8,
    enabled: bool,
    settle: bool,
    replies: Seq<HardwareReply>,
) -> HardwareStep {
    if replies.len() == 0 {
        HardwareStep::ReadRegister { bus, address, register: MODE }
    } else {
        match replies[0] {
            HardwareReply::Byte(mode) => match verified_writes(
                bus,
                address,
                seq![(MODE, output_mode(mode, enabled))],
                0,
                replies,
                1,
            ) {
                Progress::Ask(step) => step,
                Progress::Failed(error) => finished(Err(error)),
                Progress::Through => settled(settle, replies, 3),
            },
            _ => finished(Err(HardwareError::Bus)),
        }
    }
}

fn tps_set_output(
    bus: PowerBus,
    address: u8,
    enabled: bool,
    settle: bool,
    replies: &Vec<HardwareReply>,
) -> (step: HardwareStep)
    ensures
        step == set_output(bus, address, enabled, settle, replies@),
{
    if replies.len() == 0 {
        return HardwareStep::ReadRegister { bus, address, register: MODE };
    }
    match replies[0] {
        HardwareReply::Byte(mode) => {
            let next: u8 = if enabled {
                mode | 0x80
            } else {
                mode & !0x80
            };
            let writes: Vec<(u8, u8)> = vec![(MODE, next)];
            assert(writes@ =~= seq![(MODE, output_mode(mode, enabled))]);
            match next_verified_writes(bus, address, &writes, replies, 1) {
                Progress::Ask(step) => step,
                Progress::Failed(error) => finish(Err(error)),
                Progress::Through => next_settled(settle, replies, 3),
            }
        },
        _ => finish(Err(HardwareError::Bus)),
    }
}

/// The reference of a converter is set in one transfer and read back, up to
/// three times, with a pause after each failure.
pub open spec fn set_voltage(
    bus: PowerBus,
    address: u8,
    low: u8,
    high: u8,
    attempt: int,
    replies: Seq<HardwareReply>,
    at: int,
    last_error: HardwareError,
) -> HardwareStep
    decreases 3 - attempt,
{
    if attempt >= 3 {
        finished(Err(last_error))
    } else if replies.len() <= at {
        HardwareStep::WriteTriple { bus, address, first: REF_LSB, second: low, third: high }
    } else if replies[at] != HardwareReply::Done {
        if replies.len() == at + 1 {
            HardwareStep::WaitUs(RETRY_PAUSE_US)
        } else {
            set_voltage(
                bus,
                address,
                low,
                high,
                attempt + 1,
                replies,
                at + 2,
                HardwareError::Bus,
            )
        }
    } else if replies.len() == at + 1 {
        HardwareStep::ReadPair { bus, address, register: REF_LSB }
    } else if replies[at + 1] == HardwareReply::Pair(low, high) {
        HardwareStep::Finish { result: Ok(()), retries: attempt as u32 }
    } else if replies.len() == at + 2 {
        HardwareStep::WaitUs(RETRY_PAUSE_US)
    } else {
        set_voltage(
            bus,
            address,
            low,
            high,
            attempt + 1,
            replies,
            at + 3,
            if replies[at + 1] is Pair {
                HardwareError::Verify
            } else {
                HardwareError::Bus
            },
        )
    }
}

fn tps_set_voltage(
    bus: PowerBus,
    address: u8,
    millivolts: u16,
    replies: &Vec<HardwareReply>,
) -> (step: HardwareStep)
    ensures
        step == set_voltage(
            bus,
            address,
            (voltage_code(millivolts) % 0x100) as u8,
            (voltage_code(millivolts) / 0x100) as u8,
            0,
            replies@,
            0,
            HardwareError::Bus,
        ),
{
    let code: u16 = tps55289_voltage_code(millivolts);
    let low: u8 = (code % 0x100) as u8;
    let high: u8 = (code / 0x100) as u8;
    let mut attempt: u32 = 0;
    let mut at: usize = 0;
    let mut last_error = HardwareError::Bus;
    while attempt < 3
        invariant
            attempt <= 3,
            at <= 3 * attempt,
            low == (voltage_code(millivolts) % 0x100) as u8,
            high == (voltage_code(millivolts) / 0x100) as u8,
            set_voltage(bus, address, low, high, 0, replies@, 0, HardwareError::Bus)
                == set_voltage(
                bus,
                address,
                low,
                high,
                attempt as int,
                replies@,
                at as int,
                last_error,
            ),
        decreases 3 - attempt,
    {
        if replies.len() <= at {
            return HardwareStep::WriteTriple {
                bus,
                address,
                first: REF_LSB,
                second: low,
                third: high,
            };
        }
        if replies[at] != HardwareReply::Done {
            if replies.len() == at + 1 {
                return HardwareStep::WaitUs(RETRY_PAUSE_US);
            }
            last_error = HardwareError::Bus;
            at = at + 2;
        } else {
            if replies.len() == at + 1 {
                return HardwareStep::ReadPair { bus, address, register: REF_LSB };
            }
            if replies[at + 1] == HardwareReply::Pair(low, high) {
                return HardwareStep::Finish { result: Ok(()), retries: attempt };
            }
            if replies.len() == at + 2 {
                return HardwareStep::WaitUs(RETRY_PAUSE_US);
            }
            last_error = match replies[at + 1] {
                HardwareReply::Pair(_, _) => HardwareError::Verify,
                _ => HardwareError::Bus,
            };
            at = at + 3;
        }
        attempt = attempt + 1;
    }
    finish(Err(last_error))
}

/// The code that makes the adjustable low channel give a voltage: the higher
/// the code, the lower the voltage. Voltages outside the channel's range count
/// as its ends.
pub open spec fn dac_code(millivolts: u16) -> int {
    let clamped = if millivolts < 500 {
        500int
    } else if millivolts > 5_000 {
        5_000int
    } else {
        millivolts as int
    };
    3_975 - ((clamped - 500) * 3_635 + 2_250) / 4_500
}

/// The code of the adjustable low channel's converter.
pub fn adjustable_dac_code(millivolts: u16) -> (code: u16)
    ensures
        code == dac_code(millivolts),
{
    let clamped: u16 = if millivolts < 500 {
        500
    } else if millivolts > 5_000 {
        5_000
    } else {
        millivolts
    };
    (3_975 - ((clamped as u32 - 500) * 3_635 + 2_250) / 4_500) as u16
}

/// The converter of the adjustable low channel is set, up to three times, with
/// a pause after each failure.
pub open spec fn set_dac(
    first: u8,
    second: u8,
    attempt: int,
    replies: Seq<HardwareReply>,
) -> HardwareStep
    decreases 3 - attempt,
{
    let at = 2 * attempt;
    if attempt >= 3 {
        finished(Err(HardwareError::Bus))
    } else if replies.len() <= at {
        HardwareStep::WritePair { bus: PowerBus::Adjustable, address: DAC_ADDRESS, first, second }
    } else if replies[at] == HardwareReply::Done {
        HardwareStep::Finish { result: Ok(()), retries: attempt as u32 }
    } else if replies.len() == at + 1 {
        HardwareStep::WaitUs(RETRY_PAUSE_US)
    } else {
        set_dac(first, second, attempt + 1, replies)
    }
}

fn set_adjustable_dac(millivolts: u16, replies: &Vec<HardwareReply>) -> (step: HardwareStep)
    ensures
        step == set_dac(
            (dac_code(millivolts) / 0x100) as u8,
            (dac_code(millivolts) % 0x100) as u8,
            0,
            replies@,
        ),
{
    let code: u16 = adjustable_dac_code(millivolts);
    let first: u8 = (code / 0x100) as u8;
    let second: u8 = (code % 0x100) as u8;
    let mut attempt: u32 = 0;
    while attempt < 3
        invariant
            attempt <= 3,
            first == (dac_code(millivolts) / 0x100) as u8,
            second == (dac_code(millivolts) % 0x100) as u8,
            set_dac(first, second, 0, replies@) == set_dac(
                first,
                second,
                attempt as int,
                replies@,
            ),
        decreases 3 - attempt,
    {
        let at: usize = 2 * attempt as usize;
        if replies.len() <= at {
            return HardwareStep::WritePair {
                bus: PowerBus::Adjustable,
                address: DAC_ADDRESS,
                first,
                second,
            };
        }
        if replies[at] == HardwareReply::Done {
            return HardwareStep::Finish { result: Ok(()), retries: attempt };
        }
        if replies.len() == at + 1 {
            return HardwareStep::WaitUs(RETRY_PAUSE_US);
        }
        attempt = attempt + 1;
    }
    finish(Err(HardwareError::Bus))
}

/// A rail's converter is on, without a fault and outside the reserved
/// operating mode.
pub open spec fn verify_rail(address: u8, replies: Seq<HardwareReply>) -> HardwareStep {
    if replies.len() == 0 {
        HardwareStep::ReadRegister { bus: PowerBus::Shared, address, register: MODE }
    } else if !(replies[0] is Byte) {
        finished(Err(HardwareError::Bus))
    } else if replies.len() == 1 {
        HardwareStep::ReadRegister { bus: PowerBus::Shared, address, register: STATUS }
    } else if !(replies[1] is Byte) {
        finished(Err(HardwareError::Bus))
    } else if replies[0]->Byte_0 & 0x80 != 0 && replies[1]->Byte_0 & 0xe0 == 0
        && replies[1]->Byte_0 & 0x03 != 0x03 {
        finished(Ok(()))
    } else {
        finished(Err(HardwareError::Verify))
    }
}

fn tps_verify(address: u8, replies: &Vec<HardwareReply>) -> (step: HardwareStep)
    ensures
        step == verify_rail(address, replies@),
{
    if replies.len() == 0 {
        return HardwareStep::ReadRegister { bus: PowerBus::Shared, address, register: MODE };
    }
    let mode: u8 = match replies[0] {
        HardwareReply::Byte(value) => value,
        _ => {
            return finish(Err(HardwareError::Bus));
        },
    };
    if replies.len() == 1 {
        return HardwareStep::ReadRegister { bus: PowerBus::Shared, address, register: STATUS };
    }
    let status: u8 = match replies[1] {
        HardwareReply::Byte(value) => value,
        _ => {
            return finish(Err(HardwareError::Bus));
        },
    };
    if mode & 0x80 != 0 && status & 0xe0 == 0 && status & 0x03 != 0x03 {
        finish(Ok(()))
    } else {
        finish(Err(HardwareError::Verify))
    }
}

/// The output of a channel is on: by its converter's mode on the high channel,
/// by its gate on the others.
pub open spec fn verify_output(channel: u8, replies: Seq<HardwareReply>) -> HardwareStep {
    if channel == 4 {
        if replies.len() == 0 {
            HardwareStep::ReadRegister {
                bus: PowerBus::Adjustable,
                address: TPS_CH5,
                register: MODE,
            }
        } else {
            match replies[0] {
                HardwareReply::Byte(mode) => if mode & 0x80 != 0 {
                    finished(Ok(()))
                } else {
                    finished(Err(HardwareError::Verify))
                },
                _ => finished(Err(HardwareError::Bus)),
            }
        }
    } else {
        match gate_pin(channel) {
            None => finished(Err(HardwareError::Verify)),
            Some((port, pin)) => if replies.len() == 0 {
                HardwareStep::PinLevel { port, pin }
            } else if replies[0] == HardwareReply::Level(true) {
                finished(Ok(()))
            } else {
                finished(Err(HardwareError::Verify))
            },
        }
    }
}

fn channel_pin(channel: u8) -> (pin: Option<(Port, u8)>)
    ensures
        pin == gate_pin(channel),
{
    match channel {
        0 => Some((Port::C, 12)),
        1 => Some((Port::A, 15)),
        2 => Some((Port::B, 15)),
        3 => Some((Port::B, 6)),
        _ => None,
    }
}

fn check_output(channel: u8, replies: &Vec<HardwareReply>) -> (step: HardwareStep)
    ensures
        step == verify_output(channel, replies@),
{
    if channel == 4 {
        if replies.len() == 0 {
            return HardwareStep::ReadRegister {
                bus: PowerBus::Adjustable,
                address: TPS_CH5,
                register: MODE,
            };
        }
        return match replies[0] {
            HardwareReply::Byte(mode) => if mode & 0x80 != 0 {
                finish(Ok(()))
            } else {
                finish(Err(HardwareError::Verify))
            },
            _ => finish(Err(HardwareError::Bus)),
        };
    }
    match channel_pin(channel) {
        None => finish(Err(HardwareError::Verify)),
        Some((port, pin)) => if replies.len() == 0 {
            HardwareStep::PinLevel { port, pin }
        } else if replies[0] == HardwareReply::Level(true) {
            finish(Ok(()))
        } else {
            finish(Err(HardwareError::Verify))
        },
    }
}

/// The status of the high channel is read, which clears it.
pub open spec fn clear_status(replies: Seq<HardwareReply>) -> HardwareStep {
    if replies.len() == 0 {
        HardwareStep::ReadRegister {
            bus: PowerBus::Adjustable,
            address: TPS_CH5,
            register: STATUS,
        }
    } else if replies[0] is Byte {
        finished(Ok(()))
    } else {
        finished(Err(HardwareError::Bus))
    }
}

/// The next step of an operation after these replies.
pub open spec fn program_step(
    operation: DriverOperation,
    replies: Seq<HardwareReply>,
) -> HardwareStep {
    match operation {
        DriverOperation::ChannelGate { channel, enabled } => match gate_pin(channel) {
            Some((port, pin)) => drive_pin(port, pin, enabled, false, replies),
            None => finished(Err(HardwareError::Verify)),
        },
        DriverOperation::RailEnable { rail, enabled } => drive_pin(
            rail_pin(rail).0,
            rail_pin(rail).1,
            enabled,
            enabled,
            replies,
        ),
        DriverOperation::ConfigureRail { rail, millivolts } => configure(
            PowerBus::Shared,
            rail_address(rail),
            millivolts,
            RAIL_CURRENT_LIMIT_MA,
            true,
            false,
            true,
            replies,
        ),
        DriverOperation::VerifyRail { rail } => verify_rail(rail_address(rail), replies),
        DriverOperation::SetAdjustableDac { millivolts } => set_dac(
            (dac_code(millivolts) / 0x100) as u8,
            (dac_code(millivolts) % 0x100) as u8,
            0,
            replies,
        ),
        DriverOperation::Ch5Enable(enabled) => drive_pin(Port::B, 7, enabled, enabled, replies),
        DriverOperation::ConfigureCh5 { millivolts, current_limit_ma, forced_pwm } => configure(
            PowerBus::Adjustable,
            TPS_CH5,
            millivolts,
            current_limit_ma,
            false,
            forced_pwm,
            false,
            replies,
        ),
        DriverOperation::ClearCh5Status => clear_status(replies),
        DriverOperation::Ch5OutputEnable(enabled) => set_output(
            PowerBus::Adjustable,
            TPS_CH5,
            enabled,
            enabled,
            replies,
        ),
        DriverOperation::Ch5Voltage(millivolts) => set_voltage(
            PowerBus::Adjustable,
            TPS_CH5,
            (voltage_code(millivolts) % 0x100) as u8,
            (voltage_code(millivolts) / 0x100) as u8,
            0,
            replies,
            0,
            HardwareError::Bus,
        ),
        DriverOperation::VerifyOutput { channel, millivolts: _ } => verify_output(
            channel,
            replies,
        ),
    }
}

/// The next step of an operation after these replies.
pub fn next_step(operation: DriverOperation, replies: &Vec<HardwareReply>) -> (step: HardwareStep)
    ensures
        step == program_step(operation, replies@),
{
    match operation {
        DriverOperation::ChannelGate { channel, enabled } => match channel_pin(channel) {
            Some((port, pin)) => next_drive_pin(port, pin, enabled, false, replies),
            None => finish(Err(HardwareError::Verify)),
        },
        DriverOperation::RailEnable { rail, enabled } => match rail {
            Rail::Dc1 => next_drive_pin(Port::C, 13, enabled, enabled, replies),
            Rail::Dc2 => next_drive_pin(Port::B, 2, enabled, enabled, replies),
        },
        DriverOperation::ConfigureRail { rail, millivolts } => {
            let address: u8 = match rail {
                Rail::Dc1 => TPS_DC1,
                Rail::Dc2 => TPS_DC2,
            };
            tps_configure(
                PowerBus::Shared,
                address,
                millivolts,
                RAIL_CURRENT_LIMIT_MA,
                true,
                false,
                true,
                replies,
            )
        },
        DriverOperation::VerifyRail { rail } => match rail {
            Rail::Dc1 => tps_verify(TPS_DC1, replies),
            Rail::Dc2 => tps_verify(TPS_DC2, replies),
        },
        DriverOperation::SetAdjustableDac { millivolts } => set_adjustable_dac(
            millivolts,
            replies,
        ),
        DriverOperation::Ch5Enable(enabled) => next_drive_pin(
            Port::B,
            7,
            enabled,
            enabled,
            replies,
        ),
        DriverOperation::ConfigureCh5 {
            millivolts,
            current_limit_ma,
            forced_pwm,
        } => tps_configure(
            PowerBus::Adjustable,
            TPS_CH5,
            millivolts,
            current_limit_ma,
            false,
            forced_pwm,
            false,
            replies,
        ),
        DriverOperation::ClearCh5Status => {
            if replies.len() == 0 {
                HardwareStep::ReadRegister {
                    bus: PowerBus::Adjustable,
                    address: TPS_CH5,
                    register: STATUS,
                }
            } else {
                match replies[0] {
                    HardwareReply::Byte(_) => finish(Ok(())),
                    _ => finish(Err(HardwareError::Bus)),
                }
            }
        },
        DriverOperation::Ch5OutputEnable(enabled) => tps_set_output(
            PowerBus::Adjustable,
            TPS_CH5,
            enabled,
            enabled,
            replies,
        ),
        DriverOperation::Ch5Voltage(millivolts) => tps_set_voltage(
            PowerBus::Adjustable,
            TPS_CH5,
            millivolts,
            replies,
        ),
        DriverOperation::VerifyOutput { channel, millivolts: _ } => check_output(channel, replies),
    }
}

/// The code under which an operation is reported.
pub open spec fn operation_code(operation: DriverOperation) -> u8 {
    match operation {
        DriverOperation::SetAdjustableDac { millivolts: _ } => 1,
        DriverOperation::Ch5Voltage(_) => 2,
        DriverOperation::ConfigureCh5 { millivolts: _, current_limit_ma: _, forced_pwm: _ } => 3,
        DriverOperation::ClearCh5Status => 3,
        DriverOperation::Ch5OutputEnable(_) => 4,
        DriverOperation::ConfigureRail { rail: _, millivolts: _ } => 5,
        DriverOperation::VerifyRail { rail: _ } => 6,
        DriverOperation::VerifyOutput { channel: _, millivolts: _ } => 6,
        _ => 7,
    }
}

/// True of an operation whose failure is kept for the diagnostics. The
/// operations that end with a pause, and the check of a channel that there is
/// not, leave no record.
pub open spec fn failure_is_recorded(operation: DriverOperation) -> bool {
    match operation {
        DriverOperation::RailEnable { rail: _, enabled: _ } => false,
        DriverOperation::ConfigureRail { rail: _, millivolts: _ } => false,
        DriverOperation::Ch5Enable(_) => false,
        DriverOperation::Ch5OutputEnable(_) => false,
        DriverOperation::VerifyOutput { channel, millivolts: _ } => channel <= 4,
        _ => true,
    }
}

/// What the diagnostics keep of a failed operation: its code, and 1 for the
/// bus, 2 for a failed check.
pub fn failure_record(operation: DriverOperation, error: HardwareError) -> (record: Option<
    (u8, u8),
>)
    ensures
        record == (if failure_is_recorded(operation) {
            Some(
                (
                    operation_code(operation),
                    match error {
                        HardwareError::Bus => 1u8,
                        HardwareError::Verify => 2u8,
                    },
                ),
            )
        } else {
            None
        }),
{
    let cause: u8 = match error {
        HardwareError::Bus => 1,
        HardwareError::Verify => 2,
    };
    match operation {
        DriverOperation::SetAdjustableDac { millivolts: _ } => Some((1, cause)),
        DriverOperation::Ch5Voltage(_) => Some((2, cause)),
        DriverOperation::ConfigureCh5 { millivolts: _, current_limit_ma: _, forced_pwm: _ } => Some(
            (3, cause),
        ),
        DriverOperation::ClearCh5Status => Some((3, cause)),
        DriverOperation::VerifyRail { rail: _ } => Some((6, cause)),
        DriverOperation::VerifyOutput { channel, millivolts: _ } => if channel <= 4 {
            Some((6, cause))
        } else {
            None
        },
        DriverOperation::ChannelGate { channel: _, enabled: _ } => Some((7, cause)),
        _ => None,
    }
}

/// Writes that went through were all read back: reply by reply, the value that
/// was written is the value that was found.
pub proof fn lemma_writes_were_read_back(
    bus: PowerBus,
    address: u8,
    writes: Seq<(u8, u8)>,
    from: int,
    replies: Seq<HardwareReply>,
    at: int,
    index: int,
)
    requires
        0 <= from <= index < writes.len(),
        0 <= at,
        verified_writes(bus, address, writes, from, replies, at) is Through,
    ensures
        at + 2 * (writes.len() - from) <= replies.len(),
        replies[at + 2 * (index - from) + 1] == HardwareReply::Byte(writes[index].1),
    decreases writes.len() - from,
{
    if from < index {
        lemma_writes_were_read_back(bus, address, writes, from + 1, replies, at + 2, index);
    } else if from + 1 < writes.len() {
        lemma_writes_were_read_back(bus, address, writes, from + 1, replies, at + 2, from + 1);
    }
}

/// What the writes ask for is never the end of the operation.
pub proof fn lemma_writes_ask_for_work(
    bus: PowerBus,
    address: u8,
    writes: Seq<(u8, u8)>,
    from: int,
    replies: Seq<HardwareReply>,
    at: int,
)
    ensures
        verified_writes(bus, address, writes, from, replies, at) matches Progress::Ask(step) ==> !(
        step is Finish),
    decreases writes.len() - from,
{
    if from < writes.len() {
        lemma_writes_ask_for_work(bus, address, writes, from + 1, replies, at + 2);
    }
}

/// A converter counts as configured only when each of its six registers was
/// found to hold what was written.
pub proof fn configured_means_read_back(
    bus: PowerBus,
    address: u8,
    millivolts: u16,
    current_limit_ma: u16,
    enable_output: bool,
    forced_pwm: bool,
    settle: bool,
    replies: Seq<HardwareReply>,
    index: int,
)
    requires
        configure(
            bus,
            address,
            millivolts,
            current_limit_ma,
            enable_output,
            forced_pwm,
            settle,
            replies,
        ) == finished(Ok(())),
        0 <= index < 6,
    ensures
        replies.len() >= 15,
        replies[2 * index + 4] == HardwareReply::Byte(
            configuration(
                millivolts,
                current_limit_ma,
                enable_output,
                forced_pwm,
                replies[0]->Byte_0,
                replies[1]->Byte_0,
                replies[2]->Byte_0,
            )[index].1,
        ),
{
    let writes = configuration(
        millivolts,
        current_limit_ma,
        enable_output,
        forced_pwm,
        replies[0]->Byte_0,
        replies[1]->Byte_0,
        replies[2]->Byte_0,
    );
    lemma_writes_ask_for_work(bus, address, writes, 0, replies, 3);
    lemma_writes_were_read_back(bus, address, writes, 0, replies, 3, index);
}

/// Configuring the high channel leaves its output off: the mode that is written
/// has output enable clear.
pub proof fn configuring_leaves_the_output_off(
    millivolts: u16,
    current_limit_ma: u16,
    forced_pwm: bool,
    vout_fs: u8,
    mode: u8,
    slew: u8,
)
    ensures
        configuration(millivolts, current_limit_ma, false, forced_pwm, vout_fs, mode, slew)[5].0
            == MODE,
        configuration(millivolts, current_limit_ma, false, forced_pwm, vout_fs, mode, slew)[5].1
            & 0x80 == 0,
{
    assert((mode & !0x80) & 0x80 == 0) by (bit_vector);
    assert(((mode & !0x80) | 0x02) & 0x80 == 0) by (bit_vector);
    assert(((mode & !0x80) & !0x02) & 0x80 == 0) by (bit_vector);
}

/// Writes end within two replies each.
pub proof fn lemma_writes_end(
    bus: PowerBus,
    address: u8,
    writes: Seq<(u8, u8)>,
    from: int,
    replies: Seq<HardwareReply>,
    at: int,
)
    requires
        0 <= from <= writes.len(),
        at + 2 * (writes.len() - from) <= replies.len(),
    ensures
        !(verified_writes(bus, address, writes, from, replies, at) is Ask),
    decreases writes.len() - from,
{
    if from < writes.len() {
        lemma_writes_end(bus, address, writes, from + 1, replies, at + 2);
    }
}

/// Every operation comes to an end, whatever the hardware replies: after
/// sixteen replies it is over.
pub proof fn every_operation_ends(operation: DriverOperation, replies: Seq<HardwareReply>)
    requires
        replies.len() >= 16,
    ensures
        program_step(operation, replies) is Finish,
{
    reveal_with_fuel(set_voltage, 4);
    reveal_with_fuel(set_dac, 4);
    match operation {
        DriverOperation::ConfigureRail { rail, millivolts } => {
            if replies[0] is Byte && replies[1] is Byte && replies[2] is Byte {
                lemma_writes_end(
                    PowerBus::Shared,
                    rail_address(rail),
                    configuration(
                        millivolts,
                        RAIL_CURRENT_LIMIT_MA,
                        true,
                        false,
                        replies[0]->Byte_0,
                        replies[1]->Byte_0,
                        replies[2]->Byte_0,
                    ),
                    0,
                    replies,
                    3,
                );
            }
        },
        DriverOperation::ConfigureCh5 { millivolts, current_limit_ma, forced_pwm } => {
            if replies[0] is Byte && replies[1] is Byte && replies[2] is Byte {
                lemma_writes_end(
                    PowerBus::Adjustable,
                    TPS_CH5,
                    configuration(
                        millivolts,
                        current_limit_ma,
                        false,
                        forced_pwm,
                        replies[0]->Byte_0,
                        replies[1]->Byte_0,
                        replies[2]->Byte_0,
                    ),
                    0,
                    replies,
                    3,
                );
            }
        },
        DriverOperation::Ch5OutputEnable(enabled) => {
            if replies[0] is Byte {
                lemma_writes_end(
                    PowerBus::Adjustable,
                    TPS_CH5,
                    seq![(MODE, output_mode(replies[0]->Byte_0, enabled))],
                    0,
                    replies,
                    1,
                );
            }
        },
        _ => {},
    }
}

/// Higher voltages of the adjustable low channel never get a higher code.
pub proof fn dac_code_falls(low: u16, high: u16)
    requires
        low <= high,
    ensures
        dac_code(low) >= dac_code(high),
        340 <= dac_code(high) <= dac_code(low) <= 3_975,
{
}

} // verus!
