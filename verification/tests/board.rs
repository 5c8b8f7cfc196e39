//! What the board's drivers say on the wires.

use benchvolt_poc::board::adc::{read_adc_mv, read_channel_measurement};
use benchvolt_poc::board::i2c::{
    read_byte, read_tmp1075, sampled_byte, start, stop, tmp1075_temperature, write_byte, BusPhase,
    PhaseReply, PinStep, Transaction,
};
use benchvolt_poc::board::power::{
    adjustable_dac_code, failure_record, next_step, pin_bits, HardwareError, HardwareReply,
    HardwareStep, Port, PowerBus,
};
use benchvolt_poc::power::{DriverOperation, Rail};
use core::cell::Cell;

#[test]
fn adc_readings_are_averaged_and_scaled() {
    assert_eq!(read_adc_mv(&[Some(9), Some(0), Some(0), Some(0), Some(0)]), Some(0));
    assert_eq!(read_adc_mv(&[Some(0), Some(4_095), Some(4_095), Some(4_095), Some(4_095)]), Some(3_300));
    assert_eq!(read_adc_mv(&[Some(4_095), Some(2_048), Some(2_047), Some(2_048), Some(2_047)]), Some(1_650));
    assert_eq!(read_adc_mv(&[None, Some(1), Some(1), Some(1), Some(1)]), None);
    assert_eq!(read_adc_mv(&[Some(1), Some(1), Some(1), None, Some(1)]), None);
}

#[test]
fn channel_measurements_scale_and_saturate() {
    let measurement = read_channel_measurement(Some(1_500), Some(250), 78, 10);
    assert_eq!(measurement.millivolts, 11_700);
    assert_eq!(measurement.milliamps, 500);
    assert!(measurement.valid);
    let saturated = read_channel_measurement(Some(60_000), Some(60_000), 2, 1);
    assert_eq!(saturated.millivolts, 65_535);
    assert_eq!(saturated.milliamps, 65_535);
    assert!(!read_channel_measurement(None, Some(1), 1, 1).valid);
    assert!(!read_channel_measurement(Some(1), None, 1, 1).valid);
}

#[test]
fn a_byte_leaves_most_significant_bit_first() {
    let steps = write_byte(0xa1);
    assert_eq!(steps.len(), 8 * 5 + 6);
    let bits: Vec<bool> = (0..8).map(|bit| steps[5 * bit] == PinStep::Data(true)).collect();
    assert_eq!(bits, [true, false, true, false, false, false, false, true]);
    assert_eq!(steps.iter().filter(|step| **step == PinStep::Sample).count(), 1);
    assert_eq!(steps[44], PinStep::Sample);
}

#[test]
fn a_byte_arrives_most_significant_bit_first() {
    let steps = read_byte(true);
    assert_eq!(steps.iter().filter(|step| **step == PinStep::Sample).count(), 8);
    assert_eq!(steps[41], PinStep::Data(false));
    assert_eq!(read_byte(false)[41], PinStep::Data(true));
    assert_eq!(
        sampled_byte(&vec![true, false, true, false, false, false, false, true]),
        0xa1
    );
}

#[test]
fn start_and_stop_move_data_while_the_clock_is_high() {
    assert_eq!(start()[1], PinStep::Clock(true));
    assert_eq!(start()[3], PinStep::Data(false));
    assert_eq!(start()[5], PinStep::Clock(false));
    assert_eq!(stop()[2], PinStep::Clock(true));
    assert_eq!(stop()[4], PinStep::Data(true));
}

fn play(mut transaction: Transaction, replies: &[PhaseReply]) -> (Vec<BusPhase>, Option<Vec<u8>>) {
    let mut phases = Vec::new();
    let mut next = replies.iter();
    while let Some(phase) = transaction.next_phase() {
        phases.push(phase);
        transaction.answer(match phase {
            BusPhase::Start | BusPhase::Stop => PhaseReply::Done,
            _ => *next.next().unwrap(),
        });
    }
    (phases, transaction.outcome())
}

#[test]
fn a_register_read_selects_and_restarts() {
    let ack = PhaseReply::Acknowledged(true);
    let (phases, values) = play(
        Transaction::read_registers(0x28, 0x33, 2),
        &[ack, ack, ack, PhaseReply::Received(1), PhaseReply::Received(2)],
    );
    assert_eq!(
        phases,
        [
            BusPhase::Start,
            BusPhase::Write(0x50),
            BusPhase::Write(0x33),
            BusPhase::Start,
            BusPhase::Write(0x51),
            BusPhase::Read { acknowledge: true },
            BusPhase::Read { acknowledge: false },
            BusPhase::Stop,
        ]
    );
    assert_eq!(values, Some(vec![1, 2]));
}

#[test]
fn a_missing_acknowledge_stops_the_transaction() {
    let (phases, values) = play(
        Transaction::write_register(0x60, 1, 2),
        &[PhaseReply::Acknowledged(true), PhaseReply::Acknowledged(false)],
    );
    assert_eq!(phases.last(), Some(&BusPhase::Stop));
    assert_eq!(phases.len(), 4);
    assert_eq!(values, None);
    let (phases, values) =
        play(Transaction::read_register(0x60, 1), &[PhaseReply::Acknowledged(false)]);
    assert_eq!(phases.len(), 3);
    assert_eq!(values, None);
}

#[test]
fn consecutive_register_writes_keep_going() {
    let ack = PhaseReply::Acknowledged(true);
    let nack = PhaseReply::Acknowledged(false);
    let (phases, values) = play(Transaction::write_registers(0x28, 7, &[8, 9]), &[nack, ack, ack]);
    assert_eq!(
        phases,
        [
            BusPhase::Start,
            BusPhase::Write(0x50),
            BusPhase::Write(8),
            BusPhase::Write(9),
            BusPhase::Stop
        ]
    );
    assert_eq!(values, None);
    let (_, values) = play(Transaction::write_bytes(0x28, &[8]), &[ack, ack]);
    assert_eq!(values, Some(vec![]));
}

#[test]
fn temperatures_are_signed_sixteenths() {
    let (phases, _) = play(
        read_tmp1075(),
        &[PhaseReply::Acknowledged(false)],
    );
    assert_eq!(phases[1], BusPhase::Write(0x90));
    assert_eq!(tmp1075_temperature(&None), None);
    assert_eq!(tmp1075_temperature(&Some(vec![0x19, 0x00])), Some(25 * 16));
    assert_eq!(tmp1075_temperature(&Some(vec![0xff, 0xf0])), Some(-1));
    assert_eq!(tmp1075_temperature(&Some(vec![0xe7, 0x0f])), Some(-25 * 16));
}

fn run(operation: DriverOperation, reply: impl Fn(HardwareStep) -> HardwareReply) -> (Vec<HardwareStep>, Result<(), HardwareError>, u32) {
    let mut steps = Vec::new();
    let mut replies = Vec::new();
    loop {
        let step = next_step(operation, &replies);
        if let HardwareStep::Finish { result, retries } = step {
            return (steps, result, retries);
        }
        steps.push(step);
        replies.push(reply(step));
    }
}

#[test]
fn a_gate_is_driven_and_read_back() {
    let gate = DriverOperation::ChannelGate { channel: 1, enabled: true };
    let (steps, result, _) = run(gate, |step| match step {
        HardwareStep::PinLevel { .. } => HardwareReply::Level(true),
        _ => HardwareReply::Done,
    });
    assert_eq!(
        steps,
        [
            HardwareStep::SetPin { port: Port::A, pin: 15, high: true },
            HardwareStep::PinLevel { port: Port::A, pin: 15 }
        ]
    );
    assert_eq!(result, Ok(()));
    let (_, result, _) = run(gate, |_| HardwareReply::Level(false));
    assert_eq!(result, Err(HardwareError::Verify));
    let missing = DriverOperation::ChannelGate { channel: 4, enabled: true };
    assert_eq!(run(missing, |_| HardwareReply::Done).1, Err(HardwareError::Verify));
    assert_eq!(pin_bits(15, true), 1 << 15);
    assert_eq!(pin_bits(15, false), 1 << 31);
}

#[test]
fn a_rail_is_configured_register_by_register() {
    let written = Cell::new(0);
    let (steps, result, _) = run(
        DriverOperation::ConfigureRail { rail: Rail::Dc2, millivolts: 5_500 },
        |step| match step {
            HardwareStep::WriteRegister { value, .. } => {
                written.set(value);
                HardwareReply::Done
            }
            HardwareStep::ReadRegister { .. } => HardwareReply::Byte(written.get()),
            _ => HardwareReply::Done,
        },
    );
    assert_eq!(result, Ok(()));
    assert_eq!(steps.len(), 16);
    assert_eq!(steps[15], HardwareStep::WaitMs(50));
    let writes: Vec<(u8, u8)> = steps
        .iter()
        .filter_map(|step| match step {
            HardwareStep::WriteRegister { bus: PowerBus::Shared, address: 0x74, register, value } => {
                Some((*register, *value))
            }
            _ => None,
        })
        .collect();
    assert_eq!(
        writes,
        [(0x04, 0x03), (0x00, 0xd6), (0x01, 0x01), (0x02, 0xe4), (0x03, 0x00), (0x06, 0x80)]
    );
}

#[test]
fn a_wrong_read_back_fails_the_configuration() {
    let configure = DriverOperation::ConfigureCh5 {
        millivolts: 12_000,
        current_limit_ma: 3_000,
        forced_pwm: true,
    };
    let (_, result, _) = run(configure, |step| match step {
        HardwareStep::ReadRegister { .. } => HardwareReply::Byte(0),
        _ => HardwareReply::Done,
    });
    assert_eq!(result, Err(HardwareError::Verify));
    let (steps, result, _) = run(configure, |_| HardwareReply::NoAcknowledge);
    assert_eq!(result, Err(HardwareError::Bus));
    assert_eq!(steps.len(), 1);
}

#[test]
fn the_adjustable_converter_is_retried() {
    let tries = Cell::new(0);
    let set = DriverOperation::SetAdjustableDac { millivolts: 5_000 };
    let (steps, result, retries) = run(set, |step| match step {
        HardwareStep::WritePair { .. } => {
            tries.set(tries.get() + 1);
            if tries.get() == 3 {
                HardwareReply::Done
            } else {
                HardwareReply::NoAcknowledge
            }
        }
        _ => HardwareReply::Done,
    });
    assert_eq!(result, Ok(()));
    assert_eq!(retries, 2);
    assert_eq!(
        steps[0],
        HardwareStep::WritePair { bus: PowerBus::Adjustable, address: 0x60, first: 1, second: 0x54 }
    );
    assert_eq!(steps[1], HardwareStep::WaitUs(100));
    assert_eq!(run(set, |_| HardwareReply::NoAcknowledge).1, Err(HardwareError::Bus));
    assert_eq!(adjustable_dac_code(0), 3_975);
    assert_eq!(adjustable_dac_code(500), 3_975);
    assert_eq!(adjustable_dac_code(5_000), 340);
    assert_eq!(adjustable_dac_code(60_000), 340);
}

#[test]
fn the_reference_is_verified_after_every_write() {
    let set = DriverOperation::Ch5Voltage(12_000);
    let (steps, result, retries) = run(set, |step| match step {
        HardwareStep::ReadPair { .. } => HardwareReply::Pair(0x5f, 0x04),
        _ => HardwareReply::Done,
    });
    assert_eq!(result, Ok(()));
    assert_eq!(retries, 0);
    assert_eq!(
        steps[0],
        HardwareStep::WriteTriple {
            bus: PowerBus::Adjustable,
            address: 0x75,
            first: 0,
            second: 0x5f,
            third: 0x04
        }
    );
    let (steps, result, _) = run(set, |step| match step {
        HardwareStep::ReadPair { .. } => HardwareReply::Pair(0, 0),
        _ => HardwareReply::Done,
    });
    assert_eq!(result, Err(HardwareError::Verify));
    assert_eq!(steps.len(), 9);
}

#[test]
fn outputs_are_switched_and_verified() {
    let (steps, result, _) = run(DriverOperation::Ch5OutputEnable(true), |step| match step {
        HardwareStep::ReadRegister { .. } => HardwareReply::Byte(0x80),
        _ => HardwareReply::Done,
    });
    assert_eq!(result, Ok(()));
    assert_eq!(steps[3], HardwareStep::WaitMs(50));
    let verify = DriverOperation::VerifyRail { rail: Rail::Dc1 };
    assert_eq!(run(verify, |_| HardwareReply::Byte(0x80)).1, Err(HardwareError::Verify));
    let clear = |step: HardwareStep| match step {
        HardwareStep::ReadRegister { register: 6, .. } => HardwareReply::Byte(0x80),
        _ => HardwareReply::Byte(0x00),
    };
    assert_eq!(run(verify, clear).1, Ok(()));
    let output = |channel| DriverOperation::VerifyOutput { channel, millivolts: 0 };
    assert_eq!(run(output(4), clear).1, Ok(()));
    assert_eq!(run(output(0), |_| HardwareReply::Level(true)).1, Ok(()));
    assert_eq!(run(output(0), |_| HardwareReply::Level(false)).1, Err(HardwareError::Verify));
    assert_eq!(run(output(9), |_| HardwareReply::Done).1, Err(HardwareError::Verify));
    assert_eq!(run(DriverOperation::ClearCh5Status, clear).1, Ok(()));
    let enable = DriverOperation::Ch5Enable(true);
    assert_eq!(
        run(enable, |_| HardwareReply::Level(true)).0[2],
        HardwareStep::WaitMs(50)
    );
    let rail = DriverOperation::RailEnable { rail: Rail::Dc2, enabled: false };
    assert_eq!(
        run(rail, |_| HardwareReply::Level(false)).0[0],
        HardwareStep::SetPin { port: Port::B, pin: 2, high: false }
    );
}

#[test]
fn failures_are_recorded_by_operation() {
    let dac = DriverOperation::SetAdjustableDac { millivolts: 1 };
    assert_eq!(failure_record(dac, HardwareError::Bus), Some((1, 1)));
    assert_eq!(failure_record(DriverOperation::Ch5Voltage(1), HardwareError::Verify), Some((2, 2)));
    assert_eq!(failure_record(DriverOperation::ClearCh5Status, HardwareError::Bus), Some((3, 1)));
    let gate = DriverOperation::ChannelGate { channel: 0, enabled: true };
    assert_eq!(failure_record(gate, HardwareError::Verify), Some((7, 2)));
    let rail = DriverOperation::VerifyRail { rail: Rail::Dc1 };
    assert_eq!(failure_record(rail, HardwareError::Verify), Some((6, 2)));
    assert_eq!(failure_record(DriverOperation::Ch5Enable(true), HardwareError::Verify), None);
}
