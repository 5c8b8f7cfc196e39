//! Register arithmetic of the TPS55289 buck-boost converter.

use crate::app::Fault;
use vstd::prelude::*;

verus! {

/// The fault that a STATUS value reports. SCP and OCP are both current-path
/// failures. OVP is a hardware fault because the application does not expose a
/// distinct overvoltage cause.
pub open spec fn status_fault(status: u8) -> Option<Fault> {
    if status & 0xc0 != 0 {
        Some(Fault::OverCurrent)
    } else if status & 0x20 != 0 {
        Some(Fault::Hardware)
    } else {
        None
    }
}

/// The internal-feedback reference code of a voltage: 0.5645 mV steps above
/// 45 mV at a feedback ratio of 0.0564, capped at the register's range.
pub open spec fn voltage_code(millivolts: u16) -> int {
    let reference_uv = millivolts * 564 / 10;
    let delta_uv = if reference_uv < 45_000 {
        0
    } else {
        reference_uv - 45_000
    };
    let code = (delta_uv * 10 + 2_822) / 5_645;
    if code > 0x07fe {
        0x07fe
    } else {
        code
    }
}

/// The IOUT_LIMIT code of a current: the enable bit above 50 mA steps.
pub open spec fn current_code(milliamps: u16) -> int {
    if milliamps == 0 {
        0
    } else if milliamps / 50 > 127 {
        255
    } else {
        128 + milliamps / 50
    }
}

/// MODE with output enable set or cleared.
pub open spec fn output_mode(mode: u8, enabled: bool) -> u8 {
    if enabled {
        mode | 0x80
    } else {
        mode & !0x80
    }
}

/// MODE with forced PWM set or cleared.
pub open spec fn pwm_mode(mode: u8, forced_pwm: bool) -> u8 {
    if forced_pwm {
        mode | 0x02
    } else {
        mode & !0x02
    }
}

/// Convert the TPS55289's latched STATUS fault bits into application faults.
pub fn tps55289_status_fault(status: u8) -> (fault: Option<Fault>)
    ensures
        fault == status_fault(status),
{
    if status & 0xc0 != 0 {
        Some(Fault::OverCurrent)
    } else if status & 0x20 != 0 {
        Some(Fault::Hardware)
    } else {
        None
    }
}

/// A TPS output acknowledgement covers OE and the converter's own status.
/// Actual output-voltage qualification remains the ADC protection monitor's job.
pub fn tps55289_output_acknowledged(mode: u8, status: u8) -> (acknowledged: bool)
    ensures
        acknowledged == (mode & 0x80 != 0 && status_fault(status) is None && status & 0x03
            != 0x03),
{
    mode & 0x80 != 0 && tps55289_status_fault(status).is_none() && status & 0x03 != 0x03
}

/// Convert millivolts to the TPS55289 internal-feedback reference code.
pub fn tps55289_voltage_code(millivolts: u16) -> (code: u16)
    ensures
        code as int == voltage_code(millivolts),
{
    let reference_uv: u32 = millivolts as u32 * 564 / 10;
    let delta_uv: u32 = reference_uv.saturating_sub(45_000);
    let code: u32 = (delta_uv * 10 + 2_822) / 5_645;
    if code > 0x07fe {
        0x07fe
    } else {
        code as u16
    }
}

/// Convert milliamps for a 10 mOhm sense resistor to IOUT_LIMIT.
pub fn tps55289_current_code(milliamps: u16) -> (code: u8)
    ensures
        code as int == current_code(milliamps),
{
    if milliamps == 0 {
        0
    } else {
        let steps: u16 = milliamps / 50;
        let code: u8 = if steps > 127 {
            127
        } else {
            steps as u8
        };
        assert(0x80u8 | code == 0x80 + code) by (bit_vector)
            requires
                code <= 127,
        ;
        0x80 | code
    }
}

/// The VOUT_FS, MODE and VOUT_SR values that configure the converter, from
/// the values read back. A register that reads as all ones is a missing
/// device, never a value to build on.
pub fn tps55289_configuration_registers(
    vout_fs: u8,
    mode: u8,
    slew: u8,
    enable_output: bool,
    forced_pwm: bool,
) -> (registers: Option<[u8; 3]>)
    ensures
        registers is None <==> vout_fs == 0xff || mode == 0xff || slew == 0xff,
        registers matches Some(values) ==> values@ == seq![
            (vout_fs & !0x83) | 0x03,
            pwm_mode(output_mode(mode, enable_output), forced_pwm),
            if forced_pwm {
                (slew & !0x03) | 0x03
            } else {
                slew
            },
        ],
{
    if vout_fs == 0xff || mode == 0xff || slew == 0xff {
        return None;
    }
    let vout_fs: u8 = (vout_fs & !0x83) | 0x03;
    let mode: u8 = if enable_output {
        mode | 0x80
    } else {
        mode & !0x80
    };
    let mode: u8 = if forced_pwm {
        mode | 0x02
    } else {
        mode & !0x02
    };
    let slew: u8 = if forced_pwm {
        (slew & !0x03) | 0x03
    } else {
        slew
    };
    let values: [u8; 3] = [vout_fs, mode, slew];
    assert(values@ =~= seq![vout_fs, mode, slew]);
    Some(values)
}

/// MODE with output enable set or cleared, unless the device is missing.
pub fn tps55289_output_mode(mode: u8, enabled: bool) -> (next: Option<u8>)
    ensures
        next == (if mode == 0xff {
            None
        } else {
            Some(output_mode(mode, enabled))
        }),
{
    if mode == 0xff {
        None
    } else if enabled {
        Some(mode | 0x80)
    } else {
        Some(mode & !0x80)
    }
}

/// Higher voltages never get a lower reference code.
pub proof fn voltage_code_is_monotone(low: u16, high: u16)
    requires
        low <= high,
    ensures
        voltage_code(low) <= voltage_code(high),
{
    let low_uv = low * 564 / 10;
    let high_uv = high * 564 / 10;
    assert(low_uv <= high_uv);
}

/// Setting the output-enable bit and clearing it again gives back a MODE value
/// that had it clear.
pub proof fn output_mode_is_undone(mode: u8)
    ensures
        output_mode(output_mode(mode, true), false) == output_mode(mode, false),
        mode & 0x80 == 0 ==> output_mode(output_mode(mode, true), false) == mode,
        output_mode(mode, true) & 0x80 != 0,
        output_mode(mode, false) & 0x80 == 0,
{
    assert((mode | 0x80) & !0x80 == mode & !0x80) by (bit_vector);
    assert(mode & 0x80 == 0 ==> (mode | 0x80) & !0x80 == mode) by (bit_vector);
    assert((mode | 0x80) & 0x80 != 0) by (bit_vector);
    assert((mode & !0x80) & 0x80 == 0) by (bit_vector);
}

} // verus!
