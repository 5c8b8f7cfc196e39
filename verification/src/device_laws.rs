//! What the parts around the application promise: deferred commands, the
//! converters' registers, the boot seal, reset causes and pictures.

use crate::app::{Action, AppState, ChannelSnapshot, Fault, OutputTransition};
use crate::board::i2c::{
    bits_out, read_script, start_steps, stop_steps, tmp1075_sixteenths, write_script, BusPhase,
    PhaseReply, PinStep, TransactionModel,
};
use crate::board::power::{
    configuration, program_step, set_reset_bits, HardwareError, HardwareReply, HardwareStep, Port,
    PowerBus,
};
use crate::boot_seal::{armed_by, due_for_seal, recorded_seal, seal_writes, BootSeal};
use crate::display_dma::{DisplayModel, PaintCommand, PaintTransfer};
use crate::firmware_service::{due, temperature_serviced};
use crate::flash_probe::{pattern, Probe, ProbeAction};
use crate::framebuffer::{component, enlarged};
use crate::monitoring::{high_fault, TpsStatusObservation};
use crate::power::{global_shutdown_script, DriverOperation, DriverRecord};
use crate::protection::Rail;
use crate::reset_cause::causes_in;
use crate::tps55289::{current_code, voltage_code};
use crate::usb_output::{Admission, OutputTransaction, Pending, RequestResult};
use vstd::prelude::*;

verus! {

/// Switching on waits for the hardware and the negotiation. While a command is
/// pending, only switching its own channel off gets past it, and withdraws it.
pub proof fn one_command_waits_at_a_time(
    transaction: OutputTransaction,
    channel: u8,
    power_busy: bool,
    pd_pending: bool,
)
    ensures
        ({
            let (on, after_on) = transaction.begun(channel, true, power_busy, pd_pending);
            let (off, after_off) = transaction.begun(channel, false, power_busy, pd_pending);
            let waiting = transaction.pending;
            &&& power_busy || pd_pending || waiting is Some ==> on == Admission::Busy
            &&& !power_busy && !pd_pending && waiting is None ==> on == Admission::Proceed
            &&& after_on == waiting
            &&& waiting is None ==> off == Admission::Proceed && after_off is None
            &&& waiting is Some && waiting->Some_0.channel == channel ==> off
                == Admission::ProceedAfterCancellation && after_off is None
            &&& waiting is Some && waiting->Some_0.channel != channel ==> off == Admission::Busy
                && after_off == waiting
        }),
{
}

/// A command that the channel works on is answered once, by the end of exactly
/// its own operation, with how that ended; no other action answers it.
pub proof fn commands_are_answered_by_their_own_end(
    transaction: OutputTransaction,
    channel: u8,
    output: ChannelSnapshot,
    enabled: bool,
    fault: Fault,
    other_channel: u8,
    other_operation: u16,
)
    requires
        output.requested_enabled == enabled,
        output.transition == (if enabled {
            OutputTransition::Enabling(output.operation)
        } else {
            OutputTransition::Disabling(output.operation)
        }),
        other_channel != channel || other_operation != output.operation,
    ensures
        ({
            let (result, pending) = transaction.recorded(channel, enabled, output);
            let waiting = OutputTransaction { pending };
            let operation = output.operation;
            let done = Action::OutputApplied { channel, operation, enabled };
            let failed = Action::OutputFailed { channel, operation, fault };
            let foreign = Action::OutputApplied {
                channel: other_channel,
                operation: other_operation,
                enabled,
            };
            &&& result == RequestResult::Pending
            &&& waiting.released(done) == (Some(Ok::<(), Fault>(())), None::<Pending>)
            &&& waiting.released(failed) == (Some(Err::<(), Fault>(fault)), None::<Pending>)
            &&& waiting.released(foreign) == (None::<Result<(), Fault>>, pending)
            &&& waiting.released(Action::OutputEnergized { channel, operation }) == (
                None::<Result<(), Fault>>,
                pending,
            )
            &&& (OutputTransaction { pending: None }).released(done) == (
                None::<Result<(), Fault>>,
                None::<Pending>,
            )
        }),
{
}

/// A command that nothing works on is answered at once: as done where the
/// channel stands as asked, and where it is on without a fault; else with the
/// channel's fault.
pub proof fn other_commands_are_answered_at_once(
    transaction: OutputTransaction,
    channel: u8,
    output: ChannelSnapshot,
    enabled: bool,
)
    requires
        output.transition == OutputTransition::Stable,
    ensures
        ({
            let (result, pending) = transaction.recorded(channel, enabled, output);
            let stands = output.physical_enabled == enabled && output.requested_enabled == enabled;
            &&& pending == transaction.pending
            &&& stands && (!enabled || output.fault == Fault::Clear) ==> result
                == RequestResult::Complete(Ok(()))
            &&& !stands || (enabled && output.fault != Fault::Clear) ==> result
                == RequestResult::Complete(Err(output.fault))
        }),
{
}

/// The high channel's converter trips at once where it cannot be read, and on
/// the second look in a row where it shows a fault; an idle one never does.
pub proof fn the_high_converter_trips(pending: Option<Fault>, status: u8)
    ensures
        ({
            let error = TpsStatusObservation::ReadError;
            let shown = TpsStatusObservation::Value(status);
            let fault = crate::tps55289::status_fault(status);
            let (first, early) = high_fault(true, None, shown);
            let (done, late) = high_fault(true, first, shown);
            &&& high_fault(true, pending, error) == (None::<Fault>, Some(Fault::Hardware))
            &&& early is None
            &&& first == fault
            &&& late == fault
            &&& done is None
            &&& high_fault(false, pending, error) == (None::<Fault>, None::<Fault>)
            &&& high_fault(false, pending, shown) == (None::<Fault>, None::<Fault>)
            &&& high_fault(true, pending, TpsStatusObservation::Inactive) == (
                None::<Fault>,
                None::<Fault>,
            )
        }),
{
}

/// Every cause of a reset has a bit of its own: option bytes, the pin, power-on,
/// software, the two watchdogs and low power from the lowest bit up, and the
/// core supply in the highest.
pub proof fn causes_have_their_own_bits(
    option: bool,
    pin: bool,
    power_on: bool,
    software: bool,
    independent: bool,
    window: bool,
    low_power: bool,
    supply: bool,
    rest: int,
)
    requires
        0 <= rest < 0x80_0000,
    ensures
        ({
            let bit = |flag: bool|
                if flag {
                    1int
                } else {
                    0
                };
            causes_in(
                (bit(option) * 0x200_0000 + bit(pin) * 0x400_0000 + bit(power_on) * 0x800_0000
                    + bit(software) * 0x1000_0000 + bit(independent) * 0x2000_0000 + bit(window)
                    * 0x4000_0000 + bit(low_power) * 0x8000_0000 + bit(supply) * 0x80_0000
                    + rest) as u32,
            ) == bit(option) + bit(pin) * 2 + bit(power_on) * 4 + bit(software) * 8 + bit(
                independent,
            ) * 16 + bit(window) * 32 + bit(low_power) * 64 + bit(supply) * 128
        }),
{
}

/// Recovery is armed once the seal is gone from the flash, without an error flag
/// of the erase.
pub proof fn recovery_needs_a_clean_erase(ready: bool, status: u32, crc: u32)
    ensures
        armed_by(ready, status, crc) ==> ready && crc == 0xffff_ffff,
        status / 4 % 2 == 1 ==> !armed_by(ready, status, crc),
        status / 16 % 2 == 1 ==> !armed_by(ready, status, crc),
        ready && crc == 0xffff_ffff && status / 4 % 2 == 0 && status / 16 % 2 == 0 ==> armed_by(
            ready,
            status,
            crc,
        ),
{
    assert(status & 0x14 == 0 <==> status / 4 % 2 == 0 && status / 16 % 2 == 0) by (bit_vector);
}

/// The firmware is sealed once, after it ran for three seconds with a working
/// temperature sensor; a seal is kept for an image from 192 bytes to 92 KiB, and
/// is written with its checksum last.
pub proof fn healthy_firmware_is_sealed(
    attempted: bool,
    health_ticks: u32,
    temp_valid: bool,
    crc: u32,
    size: u32,
)
    ensures
        due_for_seal(attempted, health_ticks, temp_valid) <==> !attempted && health_ticks >= 3_000
            && temp_valid,
        recorded_seal(crc, size) == (if crc != 0xffff_ffff && 192 <= size <= 94_208 {
            Some(BootSeal { crc, size })
        } else {
            None
        }),
        ({
            let writes = seal_writes(BootSeal { crc, size });
            &&& writes.len() == 4
            &&& writes[0].0 == 0x0801_f804 && writes[0].1 == size % 0x1_0000
            &&& writes[1].0 == 0x0801_f806 && writes[1].1 == size / 0x1_0000
            &&& writes[2].0 == 0x0801_f800 && writes[2].1 == crc % 0x1_0000
            &&& writes[3].0 == 0x0801_f802 && writes[3].1 == crc / 0x1_0000
        }),
{
}

/// A channel's gate is driven and read back on the channel's own pin, at once;
/// a converter's enable pin on its own, with 50 ms to settle once it is on.
pub proof fn pins_are_driven_and_read_back(channel: u8, rail: Rail, enabled: bool)
    requires
        channel < 4,
    ensures
        ({
            let (port, pin) = if channel == 0 {
                (Port::C, 12u8)
            } else if channel == 1 {
                (Port::A, 15u8)
            } else if channel == 2 {
                (Port::B, 15u8)
            } else {
                (Port::B, 6u8)
            };
            let (rail_port, rail_pin) = match rail {
                Rail::Dc1 => (Port::C, 13u8),
                Rail::Dc2 => (Port::B, 2u8),
            };
            let gate = DriverOperation::ChannelGate { channel, enabled };
            let converter = DriverOperation::RailEnable { rail, enabled };
            let done = seq![HardwareReply::Done];
            let right = done.push(HardwareReply::Level(enabled));
            let wrong = done.push(HardwareReply::Level(!enabled));
            let well = HardwareStep::Finish { result: Ok(()), retries: 0 };
            let ill = HardwareStep::Finish { result: Err(HardwareError::Verify), retries: 0 };
            &&& program_step(gate, Seq::empty()) == (HardwareStep::SetPin {
                port,
                pin,
                high: enabled,
            })
            &&& program_step(gate, done) == (HardwareStep::PinLevel { port, pin })
            &&& program_step(gate, right) == well
            &&& program_step(gate, wrong) == ill
            &&& program_step(converter, Seq::empty()) == (HardwareStep::SetPin {
                port: rail_port,
                pin: rail_pin,
                high: enabled,
            })
            &&& program_step(converter, done) == (HardwareStep::PinLevel {
                port: rail_port,
                pin: rail_pin,
            })
            &&& program_step(converter, wrong) == ill
            &&& enabled ==> program_step(converter, right) == HardwareStep::WaitMs(50)
            &&& !enabled ==> program_step(converter, right) == well
        }),
{
}

/// A converter is configured in order: its full scale, its reference voltage,
/// its current limit, its slew rate, and last its mode, which may switch it on.
pub proof fn converters_are_configured_in_order(
    millivolts: u16,
    current_limit_ma: u16,
    enable_output: bool,
    forced_pwm: bool,
    vout_fs: u8,
    mode: u8,
    slew: u8,
)
    ensures
        ({
            let writes = configuration(
                millivolts,
                current_limit_ma,
                enable_output,
                forced_pwm,
                vout_fs,
                mode,
                slew,
            );
            &&& writes.len() == 6
            &&& writes[0].0 == 4 && writes[0].1 % 4 == 3 && writes[0].1 < 0x80
            &&& writes[1].0 == 0
            &&& writes[2].0 == 1
            &&& writes[1].1 + 0x100 * writes[2].1 == voltage_code(millivolts)
            &&& writes[3] == (2u8, current_code(current_limit_ma) as u8)
            &&& writes[4].0 == 3
            &&& forced_pwm ==> writes[4].1 % 4 == 3
            &&& !forced_pwm ==> writes[4].1 == slew
            &&& writes[5].0 == 6
            &&& writes[5].1 >= 0x80 <==> enable_output
            &&& writes[5].1 / 2 % 2 == 1 <==> forced_pwm
        }),
{
    assert(((vout_fs & !0x83) | 0x03) % 4 == 3 && ((vout_fs & !0x83) | 0x03) < 0x80 && ((slew
        & !0x03) | 0x03) % 4 == 3) by (bit_vector);
    assert(((mode | 0x80) | 0x02) >= 0x80 && ((mode | 0x80) & !0x02) >= 0x80 && ((mode & !0x80)
        | 0x02) < 0x80 && ((mode & !0x80) & !0x02) < 0x80 && ((mode | 0x80) | 0x02) / 2 % 2 == 1
        && ((mode & !0x80) | 0x02) / 2 % 2 == 1 && ((mode | 0x80) & !0x02) / 2 % 2 == 0 && ((mode
        & !0x80) & !0x02) / 2 % 2 == 0) by (bit_vector);
}

/// The converters of the shared rails answer on the shared bus, at 5 A; that of
/// the high channel on its own bus, with its output off until it is enabled.
pub proof fn converters_are_addressed(rail: Rail, millivolts: u16, limit: u16, forced_pwm: bool)
    ensures
        program_step(DriverOperation::ConfigureRail { rail, millivolts }, Seq::empty())
            == (HardwareStep::ReadRegister {
            bus: PowerBus::Shared,
            address: if rail == Rail::Dc1 {
                0x75
            } else {
                0x74
            },
            register: 4,
        }),
        program_step(
            DriverOperation::ConfigureCh5 { millivolts, current_limit_ma: limit, forced_pwm },
            Seq::empty(),
        ) == (HardwareStep::ReadRegister {
            bus: PowerBus::Adjustable,
            address: 0x75,
            register: 4,
        }),
        program_step(DriverOperation::ClearCh5Status, Seq::empty()) == (HardwareStep::ReadRegister {
            bus: PowerBus::Adjustable,
            address: 0x75,
            register: 7,
        }),
        program_step(DriverOperation::VerifyRail { rail }, Seq::empty())
            == (HardwareStep::ReadRegister {
            bus: PowerBus::Shared,
            address: if rail == Rail::Dc1 {
                0x75
            } else {
                0x74
            },
            register: 6,
        }),
{
}

/// A converter that runs shows its output enabled, none of its fault bits, and
/// an operating mode that exists.
pub proof fn running_converters_are_recognized(rail: Rail, mode: u8, status: u8)
    ensures
        ({
            let replies = seq![HardwareReply::Byte(mode), HardwareReply::Byte(status)];
            let step = program_step(DriverOperation::VerifyRail { rail }, replies);
            step == (HardwareStep::Finish {
                result: if mode >= 0x80 && status < 0x20 && status % 4 != 3 {
                    Ok(())
                } else {
                    Err(HardwareError::Verify)
                },
                retries: 0,
            })
        }),
{
    assert((mode & 0x80 != 0 <==> mode >= 0x80) && (status & 0xe0 == 0 <==> status < 0x20) && (
    status & 0x03 != 0x03 <==> status % 4 != 3)) by (bit_vector);
}

/// A pixel with five, six and five bits becomes one with eight bits each, in
/// proportion to its value, and stands twice in each direction.
pub proof fn pictures_are_enlarged(pixels: Seq<u16>, x: int, y: int, which: int)
    requires
        0 <= x < 640,
        0 <= y < 340,
        0 <= which < 3,
    ensures
        enlarged(pixels).len() == 652_800,
        enlarged(pixels)[(y * 640 + x) * 3 + which] == component(
            pixels[(y / 2) * 320 + x / 2],
            which,
        ),
{
    let index = (y * 640 + x) * 3 + which;
    assert(index / 3 == y * 640 + x);
    assert(index % 3 == which);
    assert((y * 640 + x) / 640 == y);
    assert((y * 640 + x) % 640 == x);
}

/// The components of a color are spread over the whole range of eight bits.
pub proof fn colors_are_spread(red: u16, green: u16, blue: u16)
    requires
        red < 32,
        green < 64,
        blue < 32,
    ensures
        ({
            let raw = (red * 2_048 + green * 32 + blue) as u16;
            &&& -31 <= component(raw, 0) * 31 - red * 255 <= 31
            &&& -63 <= component(raw, 1) * 63 - green * 255 <= 63
            &&& -31 <= component(raw, 2) * 31 - blue * 255 <= 31
        }),
{
    let raw = red * 2_048 + green * 32 + blue;
    assert(raw / 2_048 == red);
    assert(raw / 32 == red * 64 + green);
    assert((red * 64 + green) % 64 == green);
    assert(raw % 32 == blue);
}

/// The high channel's converter is enabled on its own pin, and its output by the
/// highest bit of its mode, which is read first and read back; both get 50 ms
/// once they are on.
pub proof fn the_high_channel_is_enabled(enabled: bool, mode: u8)
    ensures
        ({
            let converter = DriverOperation::Ch5Enable(enabled);
            let output = DriverOperation::Ch5OutputEnable(enabled);
            let done = seq![HardwareReply::Done];
            let right = done.push(HardwareReply::Level(enabled));
            let well = HardwareStep::Finish { result: Ok(()), retries: 0 };
            let value = crate::tps55289::output_mode(mode, enabled);
            let read = seq![HardwareReply::Byte(mode)];
            let written = read.push(HardwareReply::Done);
            let checked = written.push(HardwareReply::Byte(value));
            let register = HardwareStep::ReadRegister {
                bus: PowerBus::Adjustable,
                address: 0x75,
                register: 6,
            };
            &&& program_step(converter, Seq::empty()) == (HardwareStep::SetPin {
                port: Port::B,
                pin: 7,
                high: enabled,
            })
            &&& program_step(converter, right) == if enabled {
                HardwareStep::WaitMs(50)
            } else {
                well
            }
            &&& program_step(output, Seq::empty()) == register
            &&& program_step(output, read) == (HardwareStep::WriteRegister {
                bus: PowerBus::Adjustable,
                address: 0x75,
                register: 6,
                value,
            })
            &&& program_step(output, written) == register
            &&& program_step(output, checked) == if enabled {
                HardwareStep::WaitMs(50)
            } else {
                well
            }
        }),
{
    reveal_with_fuel(crate::board::power::verified_writes, 3);
}

/// A voltage of an adjustable channel is written as its code: that of the low
/// channel to its own converter, high byte first, and that of the high one to the
/// reference registers, low byte first.
pub proof fn voltages_are_written_as_codes(millivolts: u16)
    ensures
        program_step(DriverOperation::SetAdjustableDac { millivolts }, Seq::empty())
            matches HardwareStep::WritePair { bus, address, first, second } && bus
            == PowerBus::Adjustable && address == 0x60 && first * 0x100 + second
            == crate::board::power::dac_code(millivolts),
        program_step(DriverOperation::Ch5Voltage(millivolts), Seq::empty())
            matches HardwareStep::WriteTriple { bus, address, first, second, third } && bus
            == PowerBus::Adjustable && address == 0x75 && first == 0 && third * 0x100 + second
            == voltage_code(millivolts),
{
    reveal_with_fuel(crate::board::power::set_dac, 2);
    reveal_with_fuel(crate::board::power::set_voltage, 2);
}

/// Driving a pin writes one bit: its own to set it, the one 16 above to clear
/// it.
pub proof fn pins_have_their_own_bits(pin: u8)
    requires
        pin < 15,
    ensures
        set_reset_bits(0, true) == 1,
        set_reset_bits(0, false) == 0x1_0000,
        set_reset_bits((pin + 1) as u8, true) == 2 * set_reset_bits(pin, true),
        set_reset_bits((pin + 1) as u8, false) == 2 * set_reset_bits(pin, false),
{
    let next = (pin + 1) as u8;
    let low = (pin + 16) as u8;
    let high = (next + 16) as u8;
    assert(1u32 << 0u8 == 1 && 1u32 << 16u8 == 0x1_0000 && 1u32 << next == 2 * (1u32 << pin)
        && 1u32 << high == 2 * (1u32 << low)) by (bit_vector)
        requires
            pin < 15,
            next == pin + 1,
            low == pin + 16,
            high == pin + 17,
    ;
}

/// The flash probe goes over the 512 words of its page a hundred times, each
/// cycle with an erase first; it passes when every cycle is done without a
/// mismatch.
pub proof fn the_probe_runs_a_hundred_cycles(probe: Probe)
    requires
        probe.wf(),
    ensures
        ({
            let over = probe.aborted || probe.cycles_done >= 100;
            &&& over ==> probe.upcoming() == (ProbeAction::Finished {
                pass: !probe.aborted && probe.mismatches == 0,
            })
            &&& !over && probe.step == 0 ==> probe.upcoming() == ProbeAction::ErasePage
            &&& !over && probe.step > 0 ==> probe.upcoming() == (ProbeAction::Program {
                address: (0x0801_0000 + 4 * probe.word) as u32,
                value: pattern(probe.step),
            })
            &&& probe.step < 32 ==> probe.advanced().step == probe.step + 1
                && probe.advanced().word == probe.word
            &&& probe.step == 32 && probe.word < 511 ==> probe.advanced().step == 1
                && probe.advanced().word == probe.word + 1
            &&& probe.step == 32 && probe.word == 511 ==> probe.advanced().step == 0
                && probe.advanced().word == 0 && probe.advanced().cycles_done
                == probe.cycles_done + 1
        }),
{
}

proof fn lemma_bits(value: u8, count: nat, index: int)
    requires
        0 <= index < count,
    ensures
        bits_out(value, count).len() == 5 * count,
        bits_out(value, count)[5 * index] == PinStep::Data(
            crate::board::i2c::bit_of(value, index),
        ),
        bits_out(value, count)[5 * index + 1] == PinStep::HalfCycle,
        bits_out(value, count)[5 * index + 2] == PinStep::Clock(true),
        bits_out(value, count)[5 * index + 3] == PinStep::HalfCycle,
        bits_out(value, count)[5 * index + 4] == PinStep::Clock(false),
    decreases count,
{
    let before = bits_out(value, (count - 1) as nat);
    if count > 1 {
        lemma_bits(
            value,
            (count - 1) as nat,
            if index < count - 1 {
                index
            } else {
                0
            },
        );
    }
    assert(before.len() == 5 * (count - 1));
}

/// A byte goes out most significant bit first. Each bit stands on the data line
/// before the clock rises, and until it has fallen.
pub proof fn bytes_go_out_bit_by_bit(value: u8, index: int)
    requires
        0 <= index < 8,
    ensures
        ({
            let steps = bits_out(value, 8);
            let weight: int = if index == 0 {
                128
            } else if index == 1 {
                64
            } else if index == 2 {
                32
            } else if index == 3 {
                16
            } else if index == 4 {
                8
            } else if index == 5 {
                4
            } else if index == 6 {
                2
            } else {
                1
            };
            &&& steps.len() == 40
            &&& steps[5 * index] == PinStep::Data(value as int / weight % 2 == 1)
            &&& steps[5 * index + 1] == PinStep::HalfCycle
            &&& steps[5 * index + 2] == PinStep::Clock(true)
            &&& steps[5 * index + 3] == PinStep::HalfCycle
            &&& steps[5 * index + 4] == PinStep::Clock(false)
        }),
{
    lemma_bits(value, 8, index);
    assert((value & 0x80 != 0 <==> value / 128 % 2 == 1) && (value & 0x40 != 0 <==> value / 64 % 2
        == 1) && (value & 0x20 != 0 <==> value / 32 % 2 == 1) && (value & 0x10 != 0 <==> value / 16
        % 2 == 1) && (value & 0x08 != 0 <==> value / 8 % 2 == 1) && (value & 0x04 != 0 <==> value
        / 4 % 2 == 1) && (value & 0x02 != 0 <==> value / 2 % 2 == 1) && (value & 0x01 != 0 <==> value
        % 2 == 1)) by (bit_vector);
    assert(index == 0 || index == 1 || index == 2 || index == 3 || index == 4 || index == 5
        || index == 6 || index == 7);
}

/// A start is the data line falling, and a stop the data line rising, while the
/// clock is high.
pub proof fn starts_and_stops_are_edges_under_a_high_clock()
    ensures
        start_steps() =~= seq![
            PinStep::Data(true),
            PinStep::Clock(true),
            PinStep::HalfCycle,
            PinStep::Data(false),
            PinStep::HalfCycle,
            PinStep::Clock(false),
        ],
        stop_steps() =~= seq![
            PinStep::Data(false),
            PinStep::HalfCycle,
            PinStep::Clock(true),
            PinStep::HalfCycle,
            PinStep::Data(true),
            PinStep::HalfCycle,
        ],
{
}

/// Registers are read by a write of the register's number and a read, each under
/// the device's address, twice that in the address byte, with the lowest bit set
/// for the read; every byte but the last is acknowledged. Bytes are written after
/// the address. Both end with a stop.
pub proof fn devices_are_addressed(address: u8, register: u8, count: nat, bytes: Seq<u8>, index: int)
    requires
        address < 0x80,
        0 <= index < count,
        0 <= index < bytes.len(),
    ensures
        ({
            let reading = read_script(address, register, count);
            let writing = write_script(address, bytes);
            &&& reading.len() == 6 + count
            &&& reading[0] == BusPhase::Start
            &&& reading[1] == BusPhase::Write((2 * address) as u8)
            &&& reading[2] == BusPhase::Write(register)
            &&& reading[3] == BusPhase::Start
            &&& reading[4] == BusPhase::Write((2 * address + 1) as u8)
            &&& reading[5 + index] == (BusPhase::Read { acknowledge: index < count - 1 })
            &&& reading.last() == BusPhase::Stop
            &&& writing.len() == 3 + bytes.len()
            &&& writing[0] == BusPhase::Start
            &&& writing[1] == BusPhase::Write((2 * address) as u8)
            &&& writing[2 + index] == BusPhase::Write(bytes[index])
            &&& writing.last() == BusPhase::Stop
        }),
{
    assert(address << 1 == 2 * address && (address << 1) | 1 == 2 * address + 1) by (bit_vector)
        requires
            address < 0x80,
    ;
}

/// A device that does not acknowledge ends the transaction at its stop; what a
/// device sends is kept in order.
pub proof fn a_refusal_ends_a_transaction(before: TransactionModel, value: u8)
    requires
        before.wf(),
        !before.persistent,
        before.at < before.script.len(),
    ensures
        before.script[before.at] is Write ==> {
            let refused = before.answered(PhaseReply::Acknowledged(false));
            let accepted = before.answered(PhaseReply::Acknowledged(true));
            &&& !refused.acknowledged
            &&& refused.script[refused.at] == BusPhase::Stop
            &&& refused.at == before.script.len() - 1
            &&& accepted.acknowledged == before.acknowledged
            &&& accepted.at == before.at + 1
        },
        before.script[before.at] is Read ==> {
            let received = before.answered(PhaseReply::Received(value));
            received.values == before.values.push(value) && received.at == before.at + 1
        },
{
}

/// The temperature sensor counts sixteenths of a degree in the upper twelve bits
/// of its register, as a signed number; the lower four do not count.
pub proof fn the_sensor_counts_sixteenths(sixteenths: int, rest: int, msb: u8, lsb: u8)
    requires
        -2_048 <= sixteenths < 2_048,
        0 <= rest < 16,
        msb * 0x100 + lsb == (if sixteenths < 0 {
            sixteenths + 4_096
        } else {
            sixteenths
        }) * 16 + rest,
    ensures
        tmp1075_sixteenths(msb, lsb) == sixteenths,
{
}

/// A rectangle is painted by its columns, its rows, which begin 35 lines down,
/// and then its color, once for each of its pixels.
pub proof fn rectangles_are_sent_as_windows(command: PaintCommand, step: u8, transfer: PaintTransfer)
    requires
        command.wf(),
        command.sends(step, transfer),
        step <= 5,
    ensures
        step == 0 || step == 2 || step == 4 ==> (transfer matches PaintTransfer::Bytes {
            data_mode,
            bytes,
            len,
        } && !data_mode && len == 1 && bytes[0] == (if step == 0 {
            0x2au8
        } else if step == 2 {
            0x2b
        } else {
            0x2c
        })),
        step == 1 ==> (transfer matches PaintTransfer::Bytes { data_mode, bytes, len } && data_mode
            && len == 4 && bytes[0] * 0x100 + bytes[1] == command.x && bytes[2] * 0x100 + bytes[3]
            == command.x + command.width - 1),
        step == 3 ==> (transfer matches PaintTransfer::Bytes { data_mode, bytes, len } && data_mode
            && len == 4 && bytes[0] * 0x100 + bytes[1] == command.y + 35 && bytes[2] * 0x100
            + bytes[3] == command.y + command.height + 34),
        step == 5 ==> (transfer matches PaintTransfer::RepeatedColor { color, pixels } && color
            == command.color && pixels == command.width * command.height),
{
    assert(0 <= command.width * command.height <= 320 * 170) by (nonlinear_arith)
        requires
            0 <= command.width <= 320,
            0 <= command.height <= 170,
    ;
}

/// A command that is begun, and each chunk of its pixels, has a tenth of a
/// second; a chunk carries at most 128 pixels.
pub proof fn transfers_have_a_tenth_of_a_second(display: DisplayModel, now: u16)
    ensures
        display.queue.len() > 0 ==> {
            let begun = display.begun(now);
            &&& begun.active == Some(display.queue[0])
            &&& begun.queue == display.queue.skip(1)
            &&& begun.deadline == crate::executor::clock_after(now, 100)
        },
        display.pixels_remaining > 0 ==> {
            let sent = display.chunk_sent(now);
            &&& sent.deadline == crate::executor::clock_after(now, 100)
            &&& display.pixels_remaining <= 128 ==> sent.pixels_remaining == 0
            &&& display.pixels_remaining > 128 ==> sent.pixels_remaining
                == display.pixels_remaining - 128
        },
{
}

/// Heat, or no temperature, switches everything off in the end.
pub proof fn heat_switches_everything_off(
    state: AppState,
    before: DriverRecord,
    sample: Option<i16>,
    settled: AppState,
    after: DriverRecord,
    index: int,
)
    requires
        temperature_serviced(state, before, sample, settled, after),
        sample is None || sample->Some_0 >= 1_200,
        0 <= index < 8,
    ensures
        after.trace.len() >= 8,
        after.trace[after.trace.len() - 8 + index].0 == global_shutdown_script()[index],
{
    let fault = if sample is None {
        Fault::Sensor
    } else {
        Fault::OverTemperature
    };
    assert(crate::monitoring::sample_fault(sample) == Some(fault));
    let (tripped, well) = choose|tripped: DriverRecord, well: bool| #[trigger]
        crate::firmware::shut_down(tripped, after, well);
    let attempts = crate::power::since(tripped.trace, after.trace);
    assert(attempts[index] == after.trace[tripped.trace.len() + index]);
}

/// The parts of the loop have their periods: the measurements every 20 ms, the
/// temperature every 100, the display every 200, the load every second. A part
/// that was due starts over.
pub proof fn the_loop_keeps_its_periods(counter: u16)
    ensures
        due(counter, crate::firmware_service::MEASUREMENT_PERIOD_MS).0 <==> counter >= 20,
        due(counter, crate::firmware_service::TEMPERATURE_PERIOD_MS).0 <==> counter >= 100,
        due(counter, crate::firmware_service::DISPLAY_PERIOD_MS).0 <==> counter >= 200,
        due(counter, crate::firmware_service::LOAD_PERIOD_MS).0 <==> counter >= 1_000,
        forall|period: u16| #[trigger]
            due(counter, period).1 == if counter >= period {
                0
            } else {
                counter
            },
{
}

} // verus!
