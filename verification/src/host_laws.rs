//! What a host can rely on: what it sets is what it reads back, every query is
//! answered for the channel that it names, and numbers survive the wire.

use crate::app::{
    Action, AppState, AwgSource, Fault, Measurement, OutputTransition, RegulationMode,
};
use crate::protection::ProtectionMonitor;
use crate::protocol::{milliunits, point, thousandths};
use crate::reducer::reduced;
use crate::text::{
    all_digits, ascii, begins, decimal, decimal_reads_back, fixed2, fixed3, number, padded,
    padded_length, rest,
};
use crate::usb_command::{compat_mutation, query_text, CommandError, UsbIntent};
use crate::usb_protocol::{
    handled, limit_handled, mode_handled, output_handled, plain_handled, ArbCommand, ReplyModel,
    UsbTelemetry,
};
use vstd::prelude::*;

verus! {

/// The command that is `before`, the number of `channel` as it stands on the
/// front panel, and `after`.
pub open spec fn for_channel(before: Seq<char>, channel: u8, after: Seq<u8>) -> Seq<u8> {
    ascii(before) + seq![(49 + channel) as u8] + after
}

proof fn lemma_other(command: Seq<u8>, other: Seq<char>, at: int)
    requires
        0 <= at < other.len(),
        at < command.len(),
        command[at] != other[at] as u8,
    ensures
        !begins(command, other),
        command != ascii(other),
{
    assert(ascii(other)[at] == other[at] as u8);
    if begins(command, other) {
        assert(command.take(other.len() as int)[at] == command[at]);
    }
}

proof fn lemma_starts(text: Seq<char>, tail: Seq<u8>)
    ensures
        begins(ascii(text) + tail, text),
        rest(ascii(text) + tail, text) == tail,
{
    let command = ascii(text) + tail;
    assert(command.take(text.len() as int) =~= ascii(text));
    assert(command.skip(text.len() as int) =~= tail);
}

/// No waveform command: its sixth letter is none of `W`.
proof fn lemma_no_waveform(command: Seq<u8>)
    requires
        command.len() > 5,
        command[5] != 87 || command[0] != 83,
    ensures
        command != ascii("SOUR:WAVE:CH4:ARB:STAT?"@),
        command != ascii("SOUR:WAVE:CH4:ARB:STOP"@),
        command != ascii("SOUR:WAVE:CH5:ARB:STAT?"@),
        command != ascii("SOUR:WAVE:CH5:ARB:STOP"@),
{
    reveal_strlit("SOUR:WAVE:CH4:ARB:STAT?");
    reveal_strlit("SOUR:WAVE:CH4:ARB:STOP");
    reveal_strlit("SOUR:WAVE:CH5:ARB:STAT?");
    reveal_strlit("SOUR:WAVE:CH5:ARB:STOP");
    let at: int = if command[5] != 87 {
        5
    } else {
        0
    };
    lemma_other(command, "SOUR:WAVE:CH4:ARB:STAT?"@, at);
    lemma_other(command, "SOUR:WAVE:CH4:ARB:STOP"@, at);
    lemma_other(command, "SOUR:WAVE:CH5:ARB:STAT?"@, at);
    lemma_other(command, "SOUR:WAVE:CH5:ARB:STOP"@, at);
}

/// A command means the same with a carriage return behind it.
pub proof fn a_line_end_changes_nothing(
    command: Seq<u8>,
    state: AppState,
    monitors: [ProtectionMonitor; 5],
    telemetry: UsbTelemetry,
    arb: ArbCommand,
)
    requires
        command.len() > 0 ==> command.last() != 13,
    ensures
        handled(command.push(13), state, monitors, telemetry, arb) == handled(
            command,
            state,
            monitors,
            telemetry,
            arb,
        ),
{
    assert(command.push(13).drop_last() =~= command);
}

proof fn lemma_mode_route(
    tail: Seq<u8>,
    state: AppState,
    monitors: [ProtectionMonitor; 5],
    telemetry: UsbTelemetry,
)
    requires
        tail.len() > 0,
        tail.last() != 13,
        mode_handled(tail, state) is Some,
    ensures
        handled(
            ascii("SOUR:MODE:CH"@) + tail,
            state,
            monitors,
            telemetry,
            ArbCommand::Unrelated,
        ) == mode_handled(tail, state)->Some_0,
{
    let command = ascii("SOUR:MODE:CH"@) + tail;
    reveal_strlit("SOUR:MODE:CH");
    reveal_strlit("SYST:PROT:CH");
    reveal_strlit("OUTP:CH");
    reveal_strlit("SOUR:CURR:CH");
    reveal_strlit("SINK:LIMIT ");
    reveal_strlit("MEAS:CH");
    assert(command.last() == tail.last());
    assert(command[0] == 83 && command[1] == 79 && command[5] == 77);
    lemma_no_waveform(command);
    lemma_other(command, "SYST:PROT:CH"@, 1);
    lemma_other(command, "OUTP:CH"@, 0);
    lemma_other(command, "SOUR:CURR:CH"@, 5);
    lemma_other(command, "SINK:LIMIT "@, 1);
    lemma_other(command, "MEAS:CH"@, 0);
    lemma_starts("SOUR:MODE:CH"@, tail);
}

/// The name of a mode, as a host writes and reads it.
pub open spec fn mode_name(mode: RegulationMode) -> Seq<u8> {
    match mode {
        RegulationMode::Cv => seq![67, 86],
        RegulationMode::Cc => seq![67, 67],
    }
}

/// The mode that a host reads is the mode of the channel that it names.
pub proof fn modes_are_answered(
    state: AppState,
    monitors: [ProtectionMonitor; 5],
    telemetry: UsbTelemetry,
    channel: u8,
)
    requires
        channel == 3 || channel == 4,
    ensures
        handled(
            for_channel("SOUR:MODE:CH"@, channel, seq![63]),
            state,
            monitors,
            telemetry,
            ArbCommand::Unrelated,
        ) == (ReplyModel {
            intent: UsbIntent::NoAction,
            response: Some(
                mode_name(state.channels[channel as int].regulation_mode) + seq![13, 10],
            ),
        }),
{
    let tail = seq![(49 + channel) as u8] + seq![63u8];
    reveal_strlit("?");
    reveal_strlit("CC\r\n");
    reveal_strlit("CV\r\n");
    assert(tail.skip(1) =~= ascii("?"@));
    assert(ascii("CC\r\n"@) =~= mode_name(RegulationMode::Cc) + seq![13, 10]);
    assert(ascii("CV\r\n"@) =~= mode_name(RegulationMode::Cv) + seq![13, 10]);
    lemma_mode_route(tail, state, monitors, telemetry);
    assert(for_channel("SOUR:MODE:CH"@, channel, seq![63]) =~= ascii("SOUR:MODE:CH"@) + tail);
}

/// The mode that a host sets is the mode that it asked for, and what it then
/// reads, once the request is carried out on an output that rests.
pub proof fn modes_are_read_back(
    state: AppState,
    monitors: [ProtectionMonitor; 5],
    telemetry: UsbTelemetry,
    channel: u8,
    mode: RegulationMode,
)
    requires
        channel == 3 || channel == 4,
    ensures
        handled(
            for_channel("SOUR:MODE:CH"@, channel, seq![32u8] + mode_name(mode)),
            state,
            monitors,
            telemetry,
            ArbCommand::Unrelated,
        ) == (ReplyModel {
            intent: UsbIntent::SetRegulationMode { channel, mode },
            response: None,
        }),
        state.channels[channel as int].transition == OutputTransition::Stable ==> handled(
            for_channel("SOUR:MODE:CH"@, channel, seq![63]),
            reduced(state, Action::SetRegulationMode { channel, mode }),
            monitors,
            telemetry,
            ArbCommand::Unrelated,
        ).response == Some(mode_name(mode) + seq![13, 10]),
{
    let name = seq![32u8] + mode_name(mode);
    let tail = seq![(49 + channel) as u8] + name;
    reveal_strlit("?");
    reveal_strlit(" CC");
    reveal_strlit(" CV");
    assert(tail.skip(1) =~= name);
    assert(name.len() == 3 && name[1] == 67);
    assert(ascii("?"@).len() == 1);
    if mode == RegulationMode::Cv {
        assert(name =~= ascii(" CV"@));
    } else {
        assert(name =~= ascii(" CC"@));
        assert(name[2] == 67 && ascii(" CV"@)[2] == 86);
    }
    assert(tail.last() == name.last());
    lemma_mode_route(tail, state, monitors, telemetry);
    assert(for_channel("SOUR:MODE:CH"@, channel, name) =~= ascii("SOUR:MODE:CH"@) + tail);
    let next = reduced(state, Action::SetRegulationMode { channel, mode });
    crate::action_laws::modes_are_set_as_asked(state, channel, mode);
    modes_are_answered(next, monitors, telemetry, channel);
}

proof fn lemma_output_route(
    tail: Seq<u8>,
    state: AppState,
    monitors: [ProtectionMonitor; 5],
    telemetry: UsbTelemetry,
)
    requires
        tail.len() > 0,
        tail.last() != 13,
        output_handled(tail, state) is Some,
    ensures
        handled(
            ascii("OUTP:CH"@) + tail,
            state,
            monitors,
            telemetry,
            ArbCommand::Unrelated,
        ) == output_handled(tail, state)->Some_0,
{
    let command = ascii("OUTP:CH"@) + tail;
    reveal_strlit("OUTP:CH");
    reveal_strlit("SYST:PROT:CH");
    assert(command.last() == tail.last());
    assert(command[0] == 79);
    lemma_no_waveform(command);
    lemma_other(command, "SYST:PROT:CH"@, 0);
    lemma_starts("OUTP:CH"@, tail);
}

/// The bytes of what an output is: on, off, or the name of its fault.
pub open spec fn output_name(output: crate::app::ChannelSnapshot) -> Seq<u8> {
    match output.fault {
        Fault::Clear => if output.physical_enabled {
            ascii("ON"@)
        } else {
            ascii("OFF"@)
        },
        Fault::OverCurrent => ascii("FAULT:OVERCURRENT"@),
        Fault::OverTemperature => ascii("FAULT:OVERTEMP"@),
        Fault::Sensor => ascii("FAULT:SENSOR"@),
        Fault::Hardware => ascii("FAULT:HARDWARE"@),
    }
}

/// A query of an output tells its fault where it has one, and else whether it is
/// on; the output is the one that the query names.
pub proof fn outputs_are_answered(
    state: AppState,
    monitors: [ProtectionMonitor; 5],
    telemetry: UsbTelemetry,
    channel: u8,
)
    requires
        channel < 5,
    ensures
        handled(
            for_channel("OUTP:CH"@, channel, seq![63]),
            state,
            monitors,
            telemetry,
            ArbCommand::Unrelated,
        ) == (ReplyModel {
            intent: UsbIntent::NoAction,
            response: Some(output_name(state.channels[channel as int]) + seq![13, 10]),
        }),
{
    let tail = seq![(49 + channel) as u8] + seq![63u8];
    reveal_strlit("ON");
    reveal_strlit("OFF");
    reveal_strlit("FAULT:OVERCURRENT");
    reveal_strlit("FAULT:OVERTEMP");
    reveal_strlit("FAULT:SENSOR");
    reveal_strlit("FAULT:HARDWARE");
    reveal_strlit("ON\r\n");
    reveal_strlit("OFF\r\n");
    reveal_strlit("FAULT:OVERCURRENT\r\n");
    reveal_strlit("FAULT:OVERTEMP\r\n");
    reveal_strlit("FAULT:SENSOR\r\n");
    reveal_strlit("FAULT:HARDWARE\r\n");
    lemma_output_route(tail, state, monitors, telemetry);
    assert(for_channel("OUTP:CH"@, channel, seq![63]) =~= ascii("OUTP:CH"@) + tail);
    let output = state.channels[channel as int];
    let line = output_name(output) + seq![13, 10];
    match output.fault {
        Fault::Clear => {
            if output.physical_enabled {
                assert(line =~= ascii("ON\r\n"@));
            } else {
                assert(line =~= ascii("OFF\r\n"@));
            }
        },
        Fault::OverCurrent => {
            assert(line =~= ascii("FAULT:OVERCURRENT\r\n"@));
        },
        Fault::OverTemperature => {
            assert(line =~= ascii("FAULT:OVERTEMP\r\n"@));
        },
        Fault::Sensor => {
            assert(line =~= ascii("FAULT:SENSOR\r\n"@));
        },
        Fault::Hardware => {
            assert(line =~= ascii("FAULT:HARDWARE\r\n"@));
        },
    }
}

/// What a host asks of an output is asked of the output that it names: to go on
/// with `ON`, and off with `OFF`.
pub proof fn outputs_are_switched_as_asked(
    state: AppState,
    monitors: [ProtectionMonitor; 5],
    telemetry: UsbTelemetry,
    channel: u8,
    enabled: bool,
)
    requires
        channel < 5,
    ensures
        handled(
            for_channel(
                "OUTP:CH"@,
                channel,
                if enabled {
                    seq![32, 79, 78]
                } else {
                    seq![32, 79, 70, 70]
                },
            ),
            state,
            monitors,
            telemetry,
            ArbCommand::Unrelated,
        ) == (ReplyModel { intent: UsbIntent::SetOutput { channel, enabled }, response: None }),
{
    let name: Seq<u8> = if enabled {
        seq![32, 79, 78]
    } else {
        seq![32, 79, 70, 70]
    };
    let tail = seq![(49 + channel) as u8] + name;
    reveal_strlit(" ON");
    reveal_strlit(" OFF");
    assert(tail.skip(1) =~= name);
    if enabled {
        assert(name =~= ascii(" ON"@));
    } else {
        assert(name =~= ascii(" OFF"@));
        assert(ascii(" ON"@).len() == 3);
    }
    assert(tail.last() == name.last());
    lemma_output_route(tail, state, monitors, telemetry);
    assert(for_channel("OUTP:CH"@, channel, name) =~= ascii("OUTP:CH"@) + tail);
}

/// A one with `width` zeros behind it.
spec fn tens(width: nat) -> nat
    decreases width,
{
    if width == 0 {
        1
    } else {
        10 * tens((width - 1) as nat)
    }
}

proof fn lemma_padded_reads_back(value: nat, width: nat)
    requires
        value < tens(width),
    ensures
        all_digits(padded(value, width)),
        number(padded(value, width)) == value,
        padded(value, width).len() == width,
    decreases width,
{
    padded_length(value, width);
    if width > 0 {
        lemma_padded_reads_back(value / 10, (width - 1) as nat);
        let all = padded(value, width);
        assert(all.drop_last() =~= padded(value / 10, (width - 1) as nat));
        assert forall|i: int| 0 <= i < all.len() implies 48 <= #[trigger] all[i] <= 57 by {
            if i < all.len() - 1 {
                assert(all[i] == padded(value / 10, (width - 1) as nat)[i]);
            }
        }
    }
}

proof fn lemma_point(digits: Seq<u8>, tail: Seq<u8>)
    requires
        all_digits(digits),
        tail.len() > 0,
        tail[0] == 46,
    ensures
        point(digits + tail) == digits.len(),
    decreases digits.len(),
{
    let text = digits + tail;
    if digits.len() == 0 {
        assert(text[0] == tail[0]);
    } else {
        assert(text[0] == digits[0]);
        let shorter = digits.skip(1);
        assert forall|i: int| 0 <= i < shorter.len() implies 48 <= #[trigger] shorter[i] <= 57 by {
            assert(shorter[i] == digits[i + 1]);
        }
        lemma_point(shorter, tail);
        assert(text.skip(1) =~= shorter + tail);
    }
}

proof fn lemma_fraction_reads_back(whole: nat, part: nat, width: nat)
    requires
        1 <= width <= 3,
        part < tens(width),
        whole * 1_000 + 999 <= 0xffff || whole * 1_000 + part * (if width == 1 {
            100nat
        } else if width == 2 {
            10
        } else {
            1
        }) <= 0xffff,
    ensures
        milliunits(decimal(whole) + ascii("."@) + padded(part, width)) == Some(
            (whole * 1_000 + part * (if width == 1 {
                100nat
            } else if width == 2 {
                10
            } else {
                1
            })) as u16,
        ),
{
    let text = decimal(whole) + ascii("."@) + padded(part, width);
    let tail = ascii("."@) + padded(part, width);
    let at = decimal(whole).len() as int;
    reveal_strlit(".");
    reveal_with_fuel(tens, 4);
    decimal_reads_back(whole);
    lemma_padded_reads_back(part, width);
    assert(text =~= decimal(whole) + tail);
    assert(tail[0] == 46);
    lemma_point(decimal(whole), tail);
    assert(text.take(at) =~= decimal(whole));
    assert(text.skip(at + 1) =~= padded(part, width));
    assert(thousandths(padded(part, width)) == part * (if width == 1 {
        100nat
    } else if width == 2 {
        10
    } else {
        1
    }));
}

/// A number of thousandths is read as it was written, with three digits behind
/// the point; and hundredths with two.
pub proof fn numbers_survive_the_wire(value: nat)
    requires
        value <= 0xffff,
    ensures
        milliunits(fixed3(value)) == Some(value as u16),
        value <= 6_553 ==> milliunits(fixed2(value)) == Some((value * 10) as u16),
        value <= 65 ==> milliunits(decimal(value)) == Some((value * 1_000) as u16),
{
    reveal_with_fuel(tens, 4);
    lemma_fraction_reads_back(value / 1_000, value % 1_000, 3);
    if value <= 6_553 {
        lemma_fraction_reads_back(value / 100, value % 100, 2);
    }
    if value <= 65 {
        decimal_reads_back(value);
        lemma_no_point(decimal(value));
        assert(decimal(value).take(decimal(value).len() as int) =~= decimal(value));
    }
}

proof fn lemma_no_point(digits: Seq<u8>)
    requires
        all_digits(digits),
    ensures
        point(digits) == digits.len(),
    decreases digits.len(),
{
    if digits.len() > 0 {
        let shorter = digits.skip(1);
        assert forall|i: int| 0 <= i < shorter.len() implies 48 <= #[trigger] shorter[i] <= 57 by {
            assert(shorter[i] == digits[i + 1]);
        }
        lemma_no_point(shorter);
    }
}

proof fn lemma_fixed3_shape(value: nat)
    requires
        value <= 0xffff,
    ensures
        fixed3(value).len() > 0,
        48 <= fixed3(value).last() <= 57,
{
    padded_length(value % 1_000, 3);
    assert(fixed3(value).last() == padded(value % 1_000, 3).last());
}

proof fn lemma_limit_route(
    tail: Seq<u8>,
    state: AppState,
    monitors: [ProtectionMonitor; 5],
    telemetry: UsbTelemetry,
)
    requires
        tail.len() > 0,
        tail.last() != 13,
    ensures
        handled(
            ascii("SOUR:CURR:CH"@) + tail,
            state,
            monitors,
            telemetry,
            ArbCommand::Unrelated,
        ) == limit_handled(tail, state),
{
    let command = ascii("SOUR:CURR:CH"@) + tail;
    reveal_strlit("SOUR:CURR:CH");
    reveal_strlit("SYST:PROT:CH");
    reveal_strlit("OUTP:CH");
    assert(command.last() == tail.last());
    assert(command[0] == 83 && command[1] == 79 && command[5] == 67);
    lemma_no_waveform(command);
    lemma_other(command, "SYST:PROT:CH"@, 1);
    lemma_other(command, "OUTP:CH"@, 0);
    lemma_starts("SOUR:CURR:CH"@, tail);
}

/// A current limit is answered in amperes, for the channel that is named.
pub proof fn limits_are_answered(
    state: AppState,
    monitors: [ProtectionMonitor; 5],
    telemetry: UsbTelemetry,
    channel: u8,
)
    requires
        channel < 5,
    ensures
        handled(
            for_channel("SOUR:CURR:CH"@, channel, seq![63]),
            state,
            monitors,
            telemetry,
            ArbCommand::Unrelated,
        ) == (ReplyModel {
            intent: UsbIntent::NoAction,
            response: Some(
                fixed3(state.channels[channel as int].current_limit_ma as nat) + seq![65, 13, 10],
            ),
        }),
{
    let tail = seq![(49 + channel) as u8] + seq![63u8];
    reveal_strlit("A\r\n");
    assert(ascii("A\r\n"@) =~= seq![65u8, 13, 10]);
    lemma_limit_route(tail, state, monitors, telemetry);
    assert(for_channel("SOUR:CURR:CH"@, channel, seq![63]) =~= ascii("SOUR:CURR:CH"@) + tail);
}

/// A current limit that a host writes, in amperes with three digits behind the
/// point, is asked for as it is up to 3 A and refused beyond; once it is carried
/// out on an output that rests, the host reads it back.
pub proof fn limits_are_read_back(
    state: AppState,
    monitors: [ProtectionMonitor; 5],
    telemetry: UsbTelemetry,
    channel: u8,
    milliamps: u16,
)
    requires
        channel < 5,
    ensures
        handled(
            for_channel("SOUR:CURR:CH"@, channel, seq![32u8] + fixed3(milliamps as nat)),
            state,
            monitors,
            telemetry,
            ArbCommand::Unrelated,
        ) == if milliamps <= 3_000 {
            ReplyModel {
                intent: UsbIntent::SetCurrentLimit { channel, milliamps },
                response: None,
            }
        } else {
            ReplyModel {
                intent: UsbIntent::NoAction,
                response: Some(ascii("ERR:RANGE\r\n"@)),
            }
        },
        milliamps <= 3_000 && state.channels[channel as int].transition
            == OutputTransition::Stable ==> handled(
            for_channel("SOUR:CURR:CH"@, channel, seq![63]),
            reduced(state, Action::SetCurrentLimit { channel, milliamps }),
            monitors,
            telemetry,
            ArbCommand::Unrelated,
        ).response == Some(fixed3(milliamps as nat) + seq![65, 13, 10]),
{
    let text = seq![32u8] + fixed3(milliamps as nat);
    let tail = seq![(49 + channel) as u8] + text;
    lemma_fixed3_shape(milliamps as nat);
    numbers_survive_the_wire(milliamps as nat);
    assert(tail.last() == fixed3(milliamps as nat).last());
    assert(tail.skip(2) =~= fixed3(milliamps as nat));
    assert(tail[1] == 32);
    lemma_limit_route(tail, state, monitors, telemetry);
    assert(for_channel("SOUR:CURR:CH"@, channel, text) =~= ascii("SOUR:CURR:CH"@) + tail);
    crate::action_laws::limits_are_set_as_asked(state, channel, milliamps);
    limits_are_answered(
        reduced(state, Action::SetCurrentLimit { channel, milliamps }),
        monitors,
        telemetry,
        channel,
    );
}

/// The same holds of the limit of the input, up to 5 A.
pub proof fn the_input_limit_is_read_back(
    state: AppState,
    monitors: [ProtectionMonitor; 5],
    telemetry: UsbTelemetry,
    milliamps: u16,
)
    ensures
        handled(
            ascii("SINK:LIMIT "@) + fixed3(milliamps as nat),
            state,
            monitors,
            telemetry,
            ArbCommand::Unrelated,
        ) == if milliamps <= 5_000 {
            ReplyModel { intent: UsbIntent::SetSinkCurrentLimit(milliamps), response: None }
        } else {
            ReplyModel {
                intent: UsbIntent::NoAction,
                response: Some(ascii("ERR:RANGE\r\n"@)),
            }
        },
        handled(
            ascii("SINK:LIMIT?"@),
            state,
            monitors,
            telemetry,
            ArbCommand::Unrelated,
        ).response == Some(fixed3(state.sink_current_limit_ma as nat) + seq![65, 13, 10]),
        milliamps <= 5_000 ==> handled(
            ascii("SINK:LIMIT?"@),
            reduced(state, Action::SetSinkCurrentLimit(milliamps)),
            monitors,
            telemetry,
            ArbCommand::Unrelated,
        ).response == Some(fixed3(milliamps as nat) + seq![65, 13, 10]),
{
    let tail = fixed3(milliamps as nat);
    let command = ascii("SINK:LIMIT "@) + tail;
    lemma_fixed3_shape(milliamps as nat);
    numbers_survive_the_wire(milliamps as nat);
    reveal_strlit("SINK:LIMIT ");
    reveal_strlit("SYST:PROT:CH");
    reveal_strlit("OUTP:CH");
    reveal_strlit("SOUR:CURR:CH");
    assert(command.last() == tail.last());
    assert(command[0] == 83 && command[1] == 73 && command[5] == 76);
    lemma_no_waveform(command);
    lemma_other(command, "SYST:PROT:CH"@, 1);
    lemma_other(command, "OUTP:CH"@, 0);
    lemma_other(command, "SOUR:CURR:CH"@, 1);
    lemma_starts("SINK:LIMIT "@, tail);
    lemma_input_limit_query(state, monitors, telemetry);
    lemma_input_limit_query(
        reduced(state, Action::SetSinkCurrentLimit(milliamps)),
        monitors,
        telemetry,
    );
    crate::action_laws::the_input_limit_is_set_as_asked(state, milliamps);
}

/// The commands with an argument, none of which `command` is.
proof fn lemma_plain_route(
    command: Seq<u8>,
    state: AppState,
    monitors: [ProtectionMonitor; 5],
    telemetry: UsbTelemetry,
)
    requires
        command.len() > 10,
        command.last() != 13,
        command[5] != 87 || command[0] != 83,
        command[10] == 63 || command[4] != 58,
        command[0] == 83,
        command[1] == 73 || command[0] == 83 && command[1] == 89 && command[5] != 80,
    ensures
        handled(command, state, monitors, telemetry, ArbCommand::Unrelated) == plain_handled(
            command,
            state,
            telemetry,
        ),
{
    reveal_strlit("SYST:PROT:CH");
    reveal_strlit("OUTP:CH");
    reveal_strlit("SOUR:CURR:CH");
    reveal_strlit("SINK:LIMIT ");
    reveal_strlit("MEAS:CH");
    reveal_strlit("SOUR:MODE:CH");
    lemma_no_waveform(command);
    if command[1] == 73 {
        lemma_other(command, "SYST:PROT:CH"@, 1);
        if command[4] != 58 {
            lemma_other(command, "SINK:LIMIT "@, 4);
        } else {
            lemma_other(command, "SINK:LIMIT "@, 10);
        }
    } else {
        lemma_other(command, "SYST:PROT:CH"@, 5);
        lemma_other(command, "SINK:LIMIT "@, 1);
    }
    lemma_other(command, "OUTP:CH"@, 0);
    lemma_other(command, "SOUR:CURR:CH"@, 1);
    lemma_other(command, "MEAS:CH"@, 0);
    lemma_other(command, "SOUR:MODE:CH"@, 1);
}

proof fn lemma_input_limit_query(
    state: AppState,
    monitors: [ProtectionMonitor; 5],
    telemetry: UsbTelemetry,
)
    ensures
        handled(
            ascii("SINK:LIMIT?"@),
            state,
            monitors,
            telemetry,
            ArbCommand::Unrelated,
        ).response == Some(fixed3(state.sink_current_limit_ma as nat) + seq![65, 13, 10]),
{
    let command = ascii("SINK:LIMIT?"@);
    reveal_strlit("SINK:LIMIT?");
    reveal_strlit("A\r\n");
    reveal_strlit("*IDN?");
    reveal_strlit("SYST:BUILD?");
    reveal_strlit("SYST:HWERR?");
    reveal_strlit("SYST:TPS:CH5?");
    reveal_strlit("SYST:PD?");
    reveal_strlit("SYST:TICK?");
    reveal_strlit("MEAS:TEMP?");
    reveal_strlit("MEAS:SINK?");
    assert(command.len() == 11 && command[0] == 83 && command[1] == 73 && command[5] == 76
        && command[10] == 63);
    lemma_plain_route(command, state, monitors, telemetry);
    lemma_other(command, "*IDN?"@, 0);
    lemma_other(command, "SYST:BUILD?"@, 1);
    lemma_other(command, "SYST:HWERR?"@, 1);
    lemma_other(command, "SYST:TPS:CH5?"@, 1);
    lemma_other(command, "SYST:PD?"@, 1);
    lemma_other(command, "SYST:TICK?"@, 1);
    lemma_other(command, "MEAS:TEMP?"@, 0);
    lemma_other(command, "MEAS:SINK?"@, 0);
    assert(ascii("A\r\n"@) =~= seq![65u8, 13, 10]);
}

proof fn lemma_negotiation_route(
    state: AppState,
    monitors: [ProtectionMonitor; 5],
    telemetry: UsbTelemetry,
)
    ensures
        handled(
            ascii("SYST:PD?"@),
            state,
            monitors,
            telemetry,
            ArbCommand::Unrelated,
        ) == plain_handled(ascii("SYST:PD?"@), state, telemetry),
        ascii("SYST:PD?"@) != ascii("*IDN?"@),
        ascii("SYST:PD?"@) != ascii("SYST:BUILD?"@),
        ascii("SYST:PD?"@) != ascii("SYST:HWERR?"@),
        ascii("SYST:PD?"@) != ascii("SYST:TPS:CH5?"@),
{
    let command = ascii("SYST:PD?"@);
    reveal_strlit("SYST:PD?");
    reveal_strlit("SOUR:WAVE:CH4:ARB:STAT?");
    reveal_strlit("SOUR:WAVE:CH4:ARB:STOP");
    reveal_strlit("SOUR:WAVE:CH5:ARB:STAT?");
    reveal_strlit("SOUR:WAVE:CH5:ARB:STOP");
    reveal_strlit("SYST:PROT:CH");
    reveal_strlit("OUTP:CH");
    reveal_strlit("SOUR:CURR:CH");
    reveal_strlit("SINK:LIMIT ");
    reveal_strlit("MEAS:CH");
    reveal_strlit("SOUR:MODE:CH");
    reveal_strlit("*IDN?");
    reveal_strlit("SYST:BUILD?");
    reveal_strlit("SYST:HWERR?");
    reveal_strlit("SYST:TPS:CH5?");
    lemma_other(command, "SOUR:WAVE:CH4:ARB:STAT?"@, 1);
    lemma_other(command, "SOUR:WAVE:CH4:ARB:STOP"@, 1);
    lemma_other(command, "SOUR:WAVE:CH5:ARB:STAT?"@, 1);
    lemma_other(command, "SOUR:WAVE:CH5:ARB:STOP"@, 1);
    lemma_other(command, "SYST:PROT:CH"@, 6);
    lemma_other(command, "OUTP:CH"@, 0);
    lemma_other(command, "SOUR:CURR:CH"@, 1);
    lemma_other(command, "SINK:LIMIT "@, 1);
    lemma_other(command, "MEAS:CH"@, 0);
    lemma_other(command, "SOUR:MODE:CH"@, 1);
    lemma_other(command, "*IDN?"@, 0);
    lemma_other(command, "SYST:BUILD?"@, 5);
    lemma_other(command, "SYST:HWERR?"@, 5);
    lemma_other(command, "SYST:TPS:CH5?"@, 5);
}

proof fn lemma_interface_route(
    state: AppState,
    monitors: [ProtectionMonitor; 5],
    telemetry: UsbTelemetry,
)
    ensures
        handled(
            ascii("SYST:UI?"@),
            state,
            monitors,
            telemetry,
            ArbCommand::Unrelated,
        ) == plain_handled(ascii("SYST:UI?"@), state, telemetry),
        ascii("SYST:UI?"@) != ascii("*IDN?"@),
        ascii("SYST:UI?"@) != ascii("SYST:BUILD?"@),
        ascii("SYST:UI?"@) != ascii("SYST:HWERR?"@),
        ascii("SYST:UI?"@) != ascii("SYST:TPS:CH5?"@),
        ascii("SYST:UI?"@) != ascii("SYST:PD?"@),
        ascii("SYST:UI?"@) != ascii("SYST:TICK?"@),
        ascii("SYST:UI?"@) != ascii("MEAS:TEMP?"@),
        ascii("SYST:UI?"@) != ascii("MEAS:SINK?"@),
        ascii("SYST:UI?"@) != ascii("SINK:LIMIT?"@),
{
    let command = ascii("SYST:UI?"@);
    reveal_strlit("SYST:UI?");
    reveal_strlit("SOUR:WAVE:CH4:ARB:STAT?");
    reveal_strlit("SOUR:WAVE:CH4:ARB:STOP");
    reveal_strlit("SOUR:WAVE:CH5:ARB:STAT?");
    reveal_strlit("SOUR:WAVE:CH5:ARB:STOP");
    reveal_strlit("SYST:PROT:CH");
    reveal_strlit("OUTP:CH");
    reveal_strlit("SOUR:CURR:CH");
    reveal_strlit("SINK:LIMIT ");
    reveal_strlit("MEAS:CH");
    reveal_strlit("SOUR:MODE:CH");
    reveal_strlit("*IDN?");
    reveal_strlit("SYST:BUILD?");
    reveal_strlit("SYST:HWERR?");
    reveal_strlit("SYST:TPS:CH5?");
    reveal_strlit("SYST:PD?");
    reveal_strlit("SYST:TICK?");
    reveal_strlit("MEAS:TEMP?");
    reveal_strlit("MEAS:SINK?");
    reveal_strlit("SINK:LIMIT?");
    lemma_other(command, "SOUR:WAVE:CH4:ARB:STAT?"@, 1);
    lemma_other(command, "SOUR:WAVE:CH4:ARB:STOP"@, 1);
    lemma_other(command, "SOUR:WAVE:CH5:ARB:STAT?"@, 1);
    lemma_other(command, "SOUR:WAVE:CH5:ARB:STOP"@, 1);
    lemma_other(command, "SYST:PROT:CH"@, 5);
    lemma_other(command, "OUTP:CH"@, 0);
    lemma_other(command, "SOUR:CURR:CH"@, 1);
    lemma_other(command, "SINK:LIMIT "@, 1);
    lemma_other(command, "MEAS:CH"@, 0);
    lemma_other(command, "SOUR:MODE:CH"@, 1);
    lemma_other(command, "*IDN?"@, 0);
    lemma_other(command, "SYST:BUILD?"@, 5);
    lemma_other(command, "SYST:HWERR?"@, 5);
    lemma_other(command, "SYST:TPS:CH5?"@, 5);
    lemma_other(command, "SYST:PD?"@, 5);
    lemma_other(command, "SYST:TICK?"@, 5);
    lemma_other(command, "MEAS:TEMP?"@, 0);
    lemma_other(command, "MEAS:SINK?"@, 0);
    lemma_other(command, "SINK:LIMIT?"@, 1);
}

proof fn lemma_temperature_route(
    state: AppState,
    monitors: [ProtectionMonitor; 5],
    telemetry: UsbTelemetry,
)
    ensures
        handled(
            ascii("MEAS:TEMP?"@),
            state,
            monitors,
            telemetry,
            ArbCommand::Unrelated,
        ) == plain_handled(ascii("MEAS:TEMP?"@), state, telemetry),
        ascii("MEAS:TEMP?"@) != ascii("*IDN?"@),
        ascii("MEAS:TEMP?"@) != ascii("SYST:BUILD?"@),
        ascii("MEAS:TEMP?"@) != ascii("SYST:HWERR?"@),
        ascii("MEAS:TEMP?"@) != ascii("SYST:TPS:CH5?"@),
        ascii("MEAS:TEMP?"@) != ascii("SYST:PD?"@),
        ascii("MEAS:TEMP?"@) != ascii("SYST:TICK?"@),
{
    let command = ascii("MEAS:TEMP?"@);
    reveal_strlit("MEAS:TEMP?");
    reveal_strlit("SOUR:WAVE:CH4:ARB:STAT?");
    reveal_strlit("SOUR:WAVE:CH4:ARB:STOP");
    reveal_strlit("SOUR:WAVE:CH5:ARB:STAT?");
    reveal_strlit("SOUR:WAVE:CH5:ARB:STOP");
    reveal_strlit("SYST:PROT:CH");
    reveal_strlit("OUTP:CH");
    reveal_strlit("SOUR:CURR:CH");
    reveal_strlit("SINK:LIMIT ");
    reveal_strlit("MEAS:CH");
    reveal_strlit("SOUR:MODE:CH");
    reveal_strlit("*IDN?");
    reveal_strlit("SYST:BUILD?");
    reveal_strlit("SYST:HWERR?");
    reveal_strlit("SYST:TPS:CH5?");
    reveal_strlit("SYST:PD?");
    reveal_strlit("SYST:TICK?");
    lemma_other(command, "SOUR:WAVE:CH4:ARB:STAT?"@, 0);
    lemma_other(command, "SOUR:WAVE:CH4:ARB:STOP"@, 0);
    lemma_other(command, "SOUR:WAVE:CH5:ARB:STAT?"@, 0);
    lemma_other(command, "SOUR:WAVE:CH5:ARB:STOP"@, 0);
    lemma_other(command, "SYST:PROT:CH"@, 0);
    lemma_other(command, "OUTP:CH"@, 0);
    lemma_other(command, "SOUR:CURR:CH"@, 0);
    lemma_other(command, "SINK:LIMIT "@, 0);
    lemma_other(command, "MEAS:CH"@, 5);
    lemma_other(command, "SOUR:MODE:CH"@, 0);
    lemma_other(command, "*IDN?"@, 0);
    lemma_other(command, "SYST:BUILD?"@, 0);
    lemma_other(command, "SYST:HWERR?"@, 0);
    lemma_other(command, "SYST:TPS:CH5?"@, 0);
    lemma_other(command, "SYST:PD?"@, 0);
    lemma_other(command, "SYST:TICK?"@, 0);
}

proof fn lemma_input_route(
    state: AppState,
    monitors: [ProtectionMonitor; 5],
    telemetry: UsbTelemetry,
)
    ensures
        handled(
            ascii("MEAS:SINK?"@),
            state,
            monitors,
            telemetry,
            ArbCommand::Unrelated,
        ) == plain_handled(ascii("MEAS:SINK?"@), state, telemetry),
        ascii("MEAS:SINK?"@) != ascii("*IDN?"@),
        ascii("MEAS:SINK?"@) != ascii("SYST:BUILD?"@),
        ascii("MEAS:SINK?"@) != ascii("SYST:HWERR?"@),
        ascii("MEAS:SINK?"@) != ascii("SYST:TPS:CH5?"@),
        ascii("MEAS:SINK?"@) != ascii("SYST:PD?"@),
        ascii("MEAS:SINK?"@) != ascii("SYST:TICK?"@),
        ascii("MEAS:SINK?"@) != ascii("MEAS:TEMP?"@),
{
    let command = ascii("MEAS:SINK?"@);
    reveal_strlit("MEAS:SINK?");
    reveal_strlit("SOUR:WAVE:CH4:ARB:STAT?");
    reveal_strlit("SOUR:WAVE:CH4:ARB:STOP");
    reveal_strlit("SOUR:WAVE:CH5:ARB:STAT?");
    reveal_strlit("SOUR:WAVE:CH5:ARB:STOP");
    reveal_strlit("SYST:PROT:CH");
    reveal_strlit("OUTP:CH");
    reveal_strlit("SOUR:CURR:CH");
    reveal_strlit("SINK:LIMIT ");
    reveal_strlit("MEAS:CH");
    reveal_strlit("SOUR:MODE:CH");
    reveal_strlit("*IDN?");
    reveal_strlit("SYST:BUILD?");
    reveal_strlit("SYST:HWERR?");
    reveal_strlit("SYST:TPS:CH5?");
    reveal_strlit("SYST:PD?");
    reveal_strlit("SYST:TICK?");
    reveal_strlit("MEAS:TEMP?");
    lemma_other(command, "SOUR:WAVE:CH4:ARB:STAT?"@, 0);
    lemma_other(command, "SOUR:WAVE:CH4:ARB:STOP"@, 0);
    lemma_other(command, "SOUR:WAVE:CH5:ARB:STAT?"@, 0);
    lemma_other(command, "SOUR:WAVE:CH5:ARB:STOP"@, 0);
    lemma_other(command, "SYST:PROT:CH"@, 0);
    lemma_other(command, "OUTP:CH"@, 0);
    lemma_other(command, "SOUR:CURR:CH"@, 0);
    lemma_other(command, "SINK:LIMIT "@, 0);
    lemma_other(command, "MEAS:CH"@, 5);
    lemma_other(command, "SOUR:MODE:CH"@, 0);
    lemma_other(command, "*IDN?"@, 0);
    lemma_other(command, "SYST:BUILD?"@, 0);
    lemma_other(command, "SYST:HWERR?"@, 0);
    lemma_other(command, "SYST:TPS:CH5?"@, 0);
    lemma_other(command, "SYST:PD?"@, 0);
    lemma_other(command, "SYST:TICK?"@, 0);
    lemma_other(command, "MEAS:TEMP?"@, 5);
}

proof fn lemma_hardware_route(
    state: AppState,
    monitors: [ProtectionMonitor; 5],
    telemetry: UsbTelemetry,
)
    ensures
        handled(
            ascii("SYST:HWERR?"@),
            state,
            monitors,
            telemetry,
            ArbCommand::Unrelated,
        ) == plain_handled(ascii("SYST:HWERR?"@), state, telemetry),
        ascii("SYST:HWERR?"@) != ascii("*IDN?"@),
        ascii("SYST:HWERR?"@) != ascii("SYST:BUILD?"@),
{
    let command = ascii("SYST:HWERR?"@);
    reveal_strlit("SYST:HWERR?");
    reveal_strlit("SOUR:WAVE:CH4:ARB:STAT?");
    reveal_strlit("SOUR:WAVE:CH4:ARB:STOP");
    reveal_strlit("SOUR:WAVE:CH5:ARB:STAT?");
    reveal_strlit("SOUR:WAVE:CH5:ARB:STOP");
    reveal_strlit("SYST:PROT:CH");
    reveal_strlit("OUTP:CH");
    reveal_strlit("SOUR:CURR:CH");
    reveal_strlit("SINK:LIMIT ");
    reveal_strlit("MEAS:CH");
    reveal_strlit("SOUR:MODE:CH");
    reveal_strlit("*IDN?");
    reveal_strlit("SYST:BUILD?");
    lemma_other(command, "SOUR:WAVE:CH4:ARB:STAT?"@, 1);
    lemma_other(command, "SOUR:WAVE:CH4:ARB:STOP"@, 1);
    lemma_other(command, "SOUR:WAVE:CH5:ARB:STAT?"@, 1);
    lemma_other(command, "SOUR:WAVE:CH5:ARB:STOP"@, 1);
    lemma_other(command, "SYST:PROT:CH"@, 5);
    lemma_other(command, "OUTP:CH"@, 0);
    lemma_other(command, "SOUR:CURR:CH"@, 1);
    lemma_other(command, "SINK:LIMIT "@, 1);
    lemma_other(command, "MEAS:CH"@, 0);
    lemma_other(command, "SOUR:MODE:CH"@, 1);
    lemma_other(command, "*IDN?"@, 0);
    lemma_other(command, "SYST:BUILD?"@, 5);
}

proof fn lemma_clock_route(
    state: AppState,
    monitors: [ProtectionMonitor; 5],
    telemetry: UsbTelemetry,
)
    ensures
        handled(
            ascii("SYST:TICK?"@),
            state,
            monitors,
            telemetry,
            ArbCommand::Unrelated,
        ) == plain_handled(ascii("SYST:TICK?"@), state, telemetry),
        ascii("SYST:TICK?"@) != ascii("*IDN?"@),
        ascii("SYST:TICK?"@) != ascii("SYST:BUILD?"@),
        ascii("SYST:TICK?"@) != ascii("SYST:HWERR?"@),
        ascii("SYST:TICK?"@) != ascii("SYST:TPS:CH5?"@),
        ascii("SYST:TICK?"@) != ascii("SYST:PD?"@),
{
    let command = ascii("SYST:TICK?"@);
    reveal_strlit("SYST:TICK?");
    reveal_strlit("SOUR:WAVE:CH4:ARB:STAT?");
    reveal_strlit("SOUR:WAVE:CH4:ARB:STOP");
    reveal_strlit("SOUR:WAVE:CH5:ARB:STAT?");
    reveal_strlit("SOUR:WAVE:CH5:ARB:STOP");
    reveal_strlit("SYST:PROT:CH");
    reveal_strlit("OUTP:CH");
    reveal_strlit("SOUR:CURR:CH");
    reveal_strlit("SINK:LIMIT ");
    reveal_strlit("MEAS:CH");
    reveal_strlit("SOUR:MODE:CH");
    reveal_strlit("*IDN?");
    reveal_strlit("SYST:BUILD?");
    reveal_strlit("SYST:HWERR?");
    reveal_strlit("SYST:TPS:CH5?");
    reveal_strlit("SYST:PD?");
    lemma_other(command, "SOUR:WAVE:CH4:ARB:STAT?"@, 1);
    lemma_other(command, "SOUR:WAVE:CH4:ARB:STOP"@, 1);
    lemma_other(command, "SOUR:WAVE:CH5:ARB:STAT?"@, 1);
    lemma_other(command, "SOUR:WAVE:CH5:ARB:STOP"@, 1);
    lemma_other(command, "SYST:PROT:CH"@, 5);
    lemma_other(command, "OUTP:CH"@, 0);
    lemma_other(command, "SOUR:CURR:CH"@, 1);
    lemma_other(command, "SINK:LIMIT "@, 1);
    lemma_other(command, "MEAS:CH"@, 0);
    lemma_other(command, "SOUR:MODE:CH"@, 1);
    lemma_other(command, "*IDN?"@, 0);
    lemma_other(command, "SYST:BUILD?"@, 5);
    lemma_other(command, "SYST:HWERR?"@, 5);
    lemma_other(command, "SYST:TPS:CH5?"@, 6);
    lemma_other(command, "SYST:PD?"@, 5);
}

proof fn lemma_converter_route(
    state: AppState,
    monitors: [ProtectionMonitor; 5],
    telemetry: UsbTelemetry,
)
    ensures
        handled(
            ascii("SYST:TPS:CH5?"@),
            state,
            monitors,
            telemetry,
            ArbCommand::Unrelated,
        ) == plain_handled(ascii("SYST:TPS:CH5?"@), state, telemetry),
        ascii("SYST:TPS:CH5?"@) != ascii("*IDN?"@),
        ascii("SYST:TPS:CH5?"@) != ascii("SYST:BUILD?"@),
        ascii("SYST:TPS:CH5?"@) != ascii("SYST:HWERR?"@),
{
    let command = ascii("SYST:TPS:CH5?"@);
    reveal_strlit("SYST:TPS:CH5?");
    reveal_strlit("SOUR:WAVE:CH4:ARB:STAT?");
    reveal_strlit("SOUR:WAVE:CH4:ARB:STOP");
    reveal_strlit("SOUR:WAVE:CH5:ARB:STAT?");
    reveal_strlit("SOUR:WAVE:CH5:ARB:STOP");
    reveal_strlit("SYST:PROT:CH");
    reveal_strlit("OUTP:CH");
    reveal_strlit("SOUR:CURR:CH");
    reveal_strlit("SINK:LIMIT ");
    reveal_strlit("MEAS:CH");
    reveal_strlit("SOUR:MODE:CH");
    reveal_strlit("*IDN?");
    reveal_strlit("SYST:BUILD?");
    reveal_strlit("SYST:HWERR?");
    lemma_other(command, "SOUR:WAVE:CH4:ARB:STAT?"@, 1);
    lemma_other(command, "SOUR:WAVE:CH4:ARB:STOP"@, 1);
    lemma_other(command, "SOUR:WAVE:CH5:ARB:STAT?"@, 1);
    lemma_other(command, "SOUR:WAVE:CH5:ARB:STOP"@, 1);
    lemma_other(command, "SYST:PROT:CH"@, 5);
    lemma_other(command, "OUTP:CH"@, 0);
    lemma_other(command, "SOUR:CURR:CH"@, 1);
    lemma_other(command, "SINK:LIMIT "@, 1);
    lemma_other(command, "MEAS:CH"@, 0);
    lemma_other(command, "SOUR:MODE:CH"@, 1);
    lemma_other(command, "*IDN?"@, 0);
    lemma_other(command, "SYST:BUILD?"@, 5);
    lemma_other(command, "SYST:HWERR?"@, 5);
}

/// The name of a negotiation error.
pub open spec fn error_name(error: crate::pd::PdError) -> Seq<char> {
    match error {
        crate::pd::PdError::Bus => "BUS"@,
        crate::pd::PdError::WrongDevice => "DEVICE"@,
        crate::pd::PdError::Detached => "DETACHED"@,
        crate::pd::PdError::Timeout => "TIMEOUT"@,
        crate::pd::PdError::MalformedCapabilities => "CAPS"@,
        crate::pd::PdError::NoSuitablePdo => "NO_PDO"@,
        crate::pd::PdError::ContractMismatch => "CONTRACT"@,
    }
}

/// The state of the negotiation is answered with the contract where there is
/// one, else with the name of the error, else as under way.
pub proof fn the_negotiation_is_answered(
    state: AppState,
    monitors: [ProtectionMonitor; 5],
    telemetry: UsbTelemetry,
)
    ensures
        ({
            let reply = handled(
                ascii("SYST:PD?"@),
                state,
                monitors,
                telemetry,
                ArbCommand::Unrelated,
            );
            &&& reply.intent == UsbIntent::NoAction
            &&& state.pd_contract matches Some(contract) ==> reply.response == Some(
                ascii("READY,PDO"@) + decimal(contract.source_position as nat) + ascii(","@)
                    + decimal(contract.millivolts as nat) + ascii("mV,"@) + decimal(
                    contract.operating_milliamps as nat,
                ) + ascii("mA,MAX"@) + decimal(contract.maximum_milliamps as nat) + ascii(
                    "mA\r\n"@,
                ),
            )
            &&& state.pd_contract is None && state.pd_error is Some ==> reply.response == Some(
                ascii("ERROR,"@) + ascii(error_name(state.pd_error->Some_0)) + ascii("\r\n"@),
            )
            &&& state.pd_contract is None && state.pd_error is None ==> reply.response == Some(
                ascii("NEGOTIATING\r\n"@),
            )
        }),
{
    lemma_negotiation_route(state, monitors, telemetry);
}

/// The name of a screen that has neither a channel nor a limit.
pub open spec fn screen_name(screen: crate::app::Screen) -> Seq<char> {
    match screen {
        crate::app::Screen::MainMenu => "MENU"@,
        crate::app::Screen::Awg => "AWG"@,
        crate::app::Screen::Settings => "SETTINGS"@,
        crate::app::Screen::ProfileSave => "PROFILE:SAVE"@,
        crate::app::Screen::ProfileLoad => "PROFILE:LOAD"@,
        crate::app::Screen::System => "SYSTEM"@,
        crate::app::Screen::Help => "HELP"@,
        crate::app::Screen::Overview => "OVERVIEW"@,
        crate::app::Screen::UsbPdInput => "USBPD"@,
        crate::app::Screen::Channel(_) => "CH"@,
    }
}

/// The name of what has the focus.
pub open spec fn focus_name(focus: crate::app::ControlFocus) -> Seq<char> {
    match focus {
        crate::app::ControlFocus::Unfocused => "NONE"@,
        crate::app::ControlFocus::OverviewOutput(_) => "OVOUT"@,
        crate::app::ControlFocus::Output => "OUT"@,
        crate::app::ControlFocus::Voltage => "VOLT"@,
        crate::app::ControlFocus::CurrentLimit => "CURR"@,
        crate::app::ControlFocus::RegulationMode => "MODE"@,
    }
}

/// The screen that is shown is answered by its name; a channel's with its number
/// on the front panel, its focus, its voltage and its limit, the input's with
/// its focus and its limit, and the power screens with the encoder's counts.
pub proof fn the_screen_is_answered(
    state: AppState,
    monitors: [ProtectionMonitor; 5],
    telemetry: UsbTelemetry,
)
    ensures
        ({
            let reply = handled(
                ascii("SYST:UI?"@),
                state,
                monitors,
                telemetry,
                ArbCommand::Unrelated,
            );
            let counts = ascii(" E:"@) + decimal(telemetry.encoder_edges as nat) + ascii(" D:"@)
                + decimal(telemetry.encoder_drops as nat) + ascii("\r\n"@);
            let name = ascii(screen_name(state.screen));
            &&& reply.intent == UsbIntent::NoAction
            &&& state.screen matches crate::app::Screen::Channel(channel) ==> reply.response
                == Some(
                name + decimal((channel + 1) as nat) + ascii(","@) + ascii(
                    focus_name(state.focus),
                ) + ascii(" V:"@) + decimal(state.channels[channel as int].setpoint_mv as nat)
                    + ascii(" I:"@) + decimal(
                    state.channels[channel as int].current_limit_ma as nat,
                ) + counts,
            )
            &&& state.screen is Overview ==> reply.response == Some(name + counts)
            &&& state.screen is UsbPdInput ==> reply.response == Some(
                name + ascii(","@) + ascii(focus_name(state.focus)) + ascii(" I:"@) + decimal(
                    state.sink_current_limit_ma as nat,
                ) + counts,
            )
            &&& !(state.screen is Channel || state.screen is Overview || state.screen
                is UsbPdInput) ==> reply.response == Some(name + seq![13, 10])
        }),
{
    lemma_interface_route(state, monitors, telemetry);
    reveal_strlit("USBPD,");
    reveal_strlit("USBPD");
    reveal_strlit(",");
    reveal_strlit("MENU");
    reveal_strlit("AWG");
    reveal_strlit("SETTINGS");
    reveal_strlit("PROFILE:SAVE");
    reveal_strlit("PROFILE:LOAD");
    reveal_strlit("SYSTEM");
    reveal_strlit("HELP");
    reveal_strlit("MENU\r\n");
    reveal_strlit("AWG\r\n");
    reveal_strlit("SETTINGS\r\n");
    reveal_strlit("PROFILE:SAVE\r\n");
    reveal_strlit("PROFILE:LOAD\r\n");
    reveal_strlit("SYSTEM\r\n");
    reveal_strlit("HELP\r\n");
    assert(ascii("USBPD,"@) =~= ascii("USBPD"@) + ascii(","@));
    assert(ascii("MENU\r\n"@) =~= ascii("MENU"@) + seq![13u8, 10]);
    assert(ascii("AWG\r\n"@) =~= ascii("AWG"@) + seq![13u8, 10]);
    assert(ascii("SETTINGS\r\n"@) =~= ascii("SETTINGS"@) + seq![13u8, 10]);
    assert(ascii("PROFILE:SAVE\r\n"@) =~= ascii("PROFILE:SAVE"@) + seq![13u8, 10]);
    assert(ascii("PROFILE:LOAD\r\n"@) =~= ascii("PROFILE:LOAD"@) + seq![13u8, 10]);
    assert(ascii("SYSTEM\r\n"@) =~= ascii("SYSTEM"@) + seq![13u8, 10]);
    assert(ascii("HELP\r\n"@) =~= ascii("HELP"@) + seq![13u8, 10]);
    let counts = ascii(" E:"@) + decimal(telemetry.encoder_edges as nat) + ascii(" D:"@) + decimal(
        telemetry.encoder_drops as nat,
    ) + ascii("\r\n"@);
    assert(crate::usb_protocol::encoder_text(telemetry) == counts);
}

/// A temperature is answered in hundredths of a degree, rounded toward zero; the
/// sign stands where there are whole degrees below zero. Without a sensor there
/// is no temperature.
pub proof fn the_temperature_is_answered(
    state: AppState,
    monitors: [ProtectionMonitor; 5],
    telemetry: UsbTelemetry,
    hundredths: nat,
)
    requires
        state.temp_sixteenths_c >= 0 ==> hundredths * 16 <= state.temp_sixteenths_c * 100 < (
        hundredths + 1) * 16,
        state.temp_sixteenths_c < 0 ==> hundredths * 16 <= -state.temp_sixteenths_c * 100 < (
        hundredths + 1) * 16,
    ensures
        handled(
            ascii("MEAS:TEMP?"@),
            state,
            monitors,
            telemetry,
            ArbCommand::Unrelated,
        ).response == Some(
            if !state.temp_valid {
                ascii("ERR:SENSOR\r\n"@)
            } else if state.temp_sixteenths_c < 0 && hundredths >= 100 {
                seq![45u8] + fixed2(hundredths) + seq![13, 10]
            } else {
                fixed2(hundredths) + seq![13, 10]
            },
        ),
{
    lemma_temperature_route(state, monitors, telemetry);
    reveal_strlit("-");
    reveal_strlit("\r\n");
    assert(ascii("-"@) =~= seq![45u8]);
    assert(ascii("\r\n"@) =~= seq![13u8, 10]);
    assert(crate::usb_protocol::temperature_hundredths(state.temp_sixteenths_c) == hundredths);
}

/// The bytes of a measured voltage and current, in volts and amperes.
pub open spec fn measured(sample: Measurement) -> Seq<u8> {
    fixed3(sample.millivolts as nat) + seq![86, 44] + fixed3(sample.milliamps as nat) + seq![65]
}

/// The input is answered with its voltage, its current and their product, in
/// milliwatts rounded down.
pub proof fn the_input_is_answered(
    state: AppState,
    monitors: [ProtectionMonitor; 5],
    telemetry: UsbTelemetry,
    milliwatts: nat,
)
    requires
        milliwatts * 1_000 <= state.sink.millivolts * state.sink.milliamps < (milliwatts + 1)
            * 1_000,
    ensures
        handled(
            ascii("MEAS:SINK?"@),
            state,
            monitors,
            telemetry,
            ArbCommand::Unrelated,
        ).response == Some(
            if state.sink.valid {
                measured(state.sink) + seq![44] + fixed3(milliwatts) + seq![87, 13, 10]
            } else {
                ascii("ERR:SENSOR\r\n"@)
            },
        ),
{
    lemma_input_route(state, monitors, telemetry);
    reveal_strlit("V,");
    reveal_strlit("A,");
    reveal_strlit("W\r\n");
    let product = state.sink.millivolts * state.sink.milliamps;
    assert(product / 1_000 == milliwatts);
    assert(ascii("V,"@) =~= seq![86u8, 44]);
    assert(ascii("W\r\n"@) =~= seq![87u8, 13, 10]);
    assert(measured(state.sink) + seq![44] =~= fixed3(state.sink.millivolts as nat) + seq![86, 44]
        + fixed3(state.sink.milliamps as nat) + ascii("A,"@));
}

/// The counters of the hardware, the clock and the converter's status are
/// answered as they are.
pub proof fn diagnostics_are_answered(
    state: AppState,
    monitors: [ProtectionMonitor; 5],
    telemetry: UsbTelemetry,
)
    ensures
        handled(
            ascii("SYST:HWERR?"@),
            state,
            monitors,
            telemetry,
            ArbCommand::Unrelated,
        ).response == Some(
            ascii("OP"@) + decimal(telemetry.hw_operation as nat) + ascii(" ERR"@) + decimal(
                telemetry.hw_error as nat,
            ) + ascii(" RETRIES"@) + decimal(telemetry.hw_retries as nat) + ascii("\r\n"@),
        ),
        handled(
            ascii("SYST:TICK?"@),
            state,
            monitors,
            telemetry,
            ArbCommand::Unrelated,
        ).response == Some(decimal(telemetry.tick_ms as nat) + ascii("\r\n"@)),
        handled(
            ascii("SYST:TPS:CH5?"@),
            state,
            monitors,
            telemetry,
            ArbCommand::Unrelated,
        ).response == Some(
            ascii("0x"@) + seq![
                hex_letter(telemetry.ch5_tps_status as int / 16),
                hex_letter(telemetry.ch5_tps_status as int % 16),
            ] + ascii("\r\n"@),
        ),
{
    lemma_hardware_route(state, monitors, telemetry);
    lemma_clock_route(state, monitors, telemetry);
    lemma_converter_route(state, monitors, telemetry);
    assert(telemetry.ch5_tps_status as int / 16 < 16);
}

/// A digit of sixteen: `0` to `9`, and `A` to `F`.
pub open spec fn hex_letter(value: int) -> u8 {
    seq![48u8, 49, 50, 51, 52, 53, 54, 55, 56, 57, 65, 66, 67, 68, 69, 70][value]
}

/// A measurement is answered for the channel that is named, in volts and
/// amperes; a sensor that does not answer is no measurement.
pub proof fn measurements_are_answered(
    state: AppState,
    monitors: [ProtectionMonitor; 5],
    telemetry: UsbTelemetry,
    channel: u8,
)
    requires
        channel < 5,
    ensures
        ({
            let sample = state.channels[channel as int].measurement;
            handled(
                for_channel("MEAS:CH"@, channel, seq![63]),
                state,
                monitors,
                telemetry,
                ArbCommand::Unrelated,
            ) == (ReplyModel {
                intent: UsbIntent::NoAction,
                response: Some(
                    if sample.valid {
                        measured(sample) + seq![13, 10]
                    } else {
                        ascii("ERR:SENSOR\r\n"@)
                    },
                ),
            })
        }),
{
    let tail = seq![(49 + channel) as u8] + seq![63u8];
    let command = ascii("MEAS:CH"@) + tail;
    reveal_strlit("MEAS:CH");
    reveal_strlit("SYST:PROT:CH");
    reveal_strlit("OUTP:CH");
    reveal_strlit("SOUR:CURR:CH");
    reveal_strlit("SINK:LIMIT ");
    reveal_strlit("V,");
    reveal_strlit("A\r\n");
    assert(command.last() == 63);
    assert(command[0] == 77);
    lemma_no_waveform(command);
    lemma_other(command, "SYST:PROT:CH"@, 0);
    lemma_other(command, "OUTP:CH"@, 0);
    lemma_other(command, "SOUR:CURR:CH"@, 0);
    lemma_other(command, "SINK:LIMIT "@, 0);
    lemma_starts("MEAS:CH"@, tail);
    assert(for_channel("MEAS:CH"@, channel, seq![63]) =~= command);
    let sample = state.channels[channel as int].measurement;
    assert(ascii("V,"@) =~= seq![86u8, 44]);
    assert(fixed3(sample.millivolts as nat) + seq![86, 44] + fixed3(sample.milliamps as nat)
        + ascii("A\r\n"@) =~= measured(sample) + seq![13, 10]);
}

/// A protection monitor is answered for the channel that is named: whether it
/// watches, its last sample, the peak, the grace that is left, the counts of
/// current and voltage, the sample of the last trip, and the samples so far.
pub proof fn monitors_are_answered(
    state: AppState,
    monitors: [ProtectionMonitor; 5],
    telemetry: UsbTelemetry,
    channel: u8,
)
    requires
        channel < 5,
    ensures
        ({
            let monitor = monitors[channel as int];
            handled(
                for_channel("SYST:PROT:CH"@, channel, seq![63]),
                state,
                monitors,
                telemetry,
                ArbCommand::Unrelated,
            ) == (ReplyModel {
                intent: UsbIntent::NoAction,
                response: Some(
                    ascii("A"@) + decimal(
                        if monitor.active {
                            1nat
                        } else {
                            0
                        },
                    ) + ascii(" R"@) + decimal(monitor.last.millivolts as nat) + ascii(","@)
                        + decimal(monitor.last.milliamps as nat) + ascii(" P"@) + decimal(
                        monitor.peak_milliamps as nat,
                    ) + ascii(" G"@) + decimal(monitor.grace_remaining as nat) + ascii(" O"@)
                        + decimal(monitor.overcurrent_samples as nat) + ascii(" V"@) + decimal(
                        monitor.voltage_samples as nat,
                    ) + ascii(" T"@) + decimal(monitor.trip.millivolts as nat) + ascii(","@)
                        + decimal(monitor.trip.milliamps as nat) + ascii(" N"@) + decimal(
                        monitor.samples_since_enable as nat,
                    ) + ascii("\r\n"@),
                ),
            })
        }),
{
    let tail = seq![(49 + channel) as u8] + seq![63u8];
    let command = ascii("SYST:PROT:CH"@) + tail;
    reveal_strlit("SYST:PROT:CH");
    reveal_strlit("0");
    reveal_strlit("1");
    assert(command.last() == 63);
    assert(command[5] == 80);
    lemma_no_waveform(command);
    lemma_starts("SYST:PROT:CH"@, tail);
    assert(for_channel("SYST:PROT:CH"@, channel, seq![63]) =~= command);
    assert(decimal(1) =~= ascii("1"@));
    assert(decimal(0) =~= ascii("0"@));
}

/// An uploaded waveform is stopped on the channel that is named, and its state
/// is answered there; a channel that plays none answers that it has stopped.
pub proof fn uploads_are_answered(
    state: AppState,
    monitors: [ProtectionMonitor; 5],
    telemetry: UsbTelemetry,
    channel: u8,
)
    requires
        channel == 3 || channel == 4,
    ensures
        ({
            let asked = handled(
                for_channel("SOUR:WAVE:CH"@, channel, ascii(":ARB:STAT?"@)),
                state,
                monitors,
                telemetry,
                ArbCommand::Unrelated,
            );
            let stopped = handled(
                for_channel("SOUR:WAVE:CH"@, channel, ascii(":ARB:STOP"@)),
                state,
                monitors,
                telemetry,
                ArbCommand::Unrelated,
            );
            let plays = state.awg_source == crate::app::AwgSource::Arbitrary
                && state.arb_run.channel == channel;
            &&& stopped == (ReplyModel { intent: UsbIntent::ArbStop(channel), response: None })
            &&& asked.intent == UsbIntent::NoAction
            &&& asked.response == Some(
                ascii(
                    if !plays {
                        "STOPPED"@
                    } else {
                        match state.awg_status {
                            crate::app::AwgStatus::Stopped => "STOPPED"@,
                            crate::app::AwgStatus::StartRequested => "STARTING"@,
                            crate::app::AwgStatus::Starting => "STARTING"@,
                            crate::app::AwgStatus::Running => "RUNNING"@,
                            crate::app::AwgStatus::StopRequested => "STOPPING"@,
                            crate::app::AwgStatus::Fault => "FAULT"@,
                        }
                    },
                ) + ascii(",INDEX:"@) + decimal(telemetry.arb_index as nat) + ascii(",CYCLES:"@)
                    + decimal(telemetry.arb_cycles as nat) + ascii(",LATE:"@) + decimal(
                    telemetry.arb_late_updates as nat,
                ) + ascii(",SKIP:"@) + decimal(telemetry.arb_skipped_cycles as nat) + ascii(
                    "\r\n"@,
                ),
            )
        }),
{
    reveal_strlit("SOUR:WAVE:CH");
    reveal_strlit(":ARB:STAT?");
    reveal_strlit(":ARB:STOP");
    reveal_strlit("SOUR:WAVE:CH4:ARB:STAT?");
    reveal_strlit("SOUR:WAVE:CH4:ARB:STOP");
    reveal_strlit("SOUR:WAVE:CH5:ARB:STAT?");
    reveal_strlit("SOUR:WAVE:CH5:ARB:STOP");
    let stat = for_channel("SOUR:WAVE:CH"@, channel, ascii(":ARB:STAT?"@));
    let stop = for_channel("SOUR:WAVE:CH"@, channel, ascii(":ARB:STOP"@));
    assert(stat.len() == 23 && stop.len() == 22);
    assert(stat[12] == 49 + channel && stop[12] == 49 + channel);
    if channel == 3 {
        assert(stat =~= ascii("SOUR:WAVE:CH4:ARB:STAT?"@));
        assert(stop =~= ascii("SOUR:WAVE:CH4:ARB:STOP"@));
    } else {
        assert(stat =~= ascii("SOUR:WAVE:CH5:ARB:STAT?"@));
        assert(stop =~= ascii("SOUR:WAVE:CH5:ARB:STOP"@));
        lemma_other(stat, "SOUR:WAVE:CH4:ARB:STAT?"@, 12);
        lemma_other(stop, "SOUR:WAVE:CH4:ARB:STAT?"@, 12);
        lemma_other(stat, "SOUR:WAVE:CH4:ARB:STOP"@, 12);
        lemma_other(stop, "SOUR:WAVE:CH4:ARB:STOP"@, 12);
    }
    assert(stop[20] == 79);
    lemma_other(stop, "SOUR:WAVE:CH4:ARB:STAT?"@, 20);
    lemma_other(stop, "SOUR:WAVE:CH5:ARB:STAT?"@, 20);
}

/// A voltage that a host writes, in volts with three digits behind the point, is
/// asked for as it is, from 0.5 V to 5 V on channel 4 and from 0.8 V to 22 V on
/// channel 5, and refused beyond; the other channels have none to set.
pub proof fn voltages_are_asked_for_as_written(channel: u8, millivolts: u16)
    requires
        channel < 5,
    ensures
        compat_mutation(
            for_channel("SOUR:VOLT:CH"@, channel, seq![32u8] + fixed3(millivolts as nat)),
        ) == if channel == 3 && 500 <= millivolts <= 5_000 || channel == 4 && 800 <= millivolts
            <= 22_000 {
            Ok::<Option<UsbIntent>, CommandError>(
                Some(UsbIntent::SetVoltage { channel, millivolts }),
            )
        } else {
            Err(CommandError::Range)
        },
{
    let tail = seq![(49 + channel) as u8] + (seq![32u8] + fixed3(millivolts as nat));
    let command = ascii("SOUR:VOLT:CH"@) + tail;
    reveal_strlit("SOUR:VOLT:CH");
    reveal_strlit("OUTP:CH");
    numbers_survive_the_wire(millivolts as nat);
    assert(command[0] == 83);
    lemma_other(command, "OUTP:CH"@, 0);
    lemma_starts("SOUR:VOLT:CH"@, tail);
    assert(for_channel("SOUR:VOLT:CH"@, channel, seq![32u8] + fixed3(millivolts as nat))
        =~= command);
    assert(tail.skip(2) =~= fixed3(millivolts as nat));
    assert(tail[1] == 32);
}

/// The older forms of the output commands ask for the same as the newer ones.
pub proof fn older_output_forms_mean_the_same(channel: u8, colon: bool, enabled: bool)
    requires
        channel < 5,
    ensures
        ({
            let state = if enabled {
                seq![49u8]
            } else {
                seq![48u8]
            };
            let older = if colon {
                ascii(":STAT "@)
            } else {
                ascii(" STAT "@)
            };
            let newer = if enabled {
                ascii(" ON"@)
            } else {
                ascii(" OFF"@)
            };
            let wanted = Ok::<Option<UsbIntent>, CommandError>(
                Some(UsbIntent::SetOutput { channel, enabled }),
            );
            &&& compat_mutation(for_channel("OUTP:CH"@, channel, older + state)) == wanted
            &&& compat_mutation(for_channel("OUTP:CH"@, channel, newer)) == wanted
            &&& compat_mutation(for_channel("OUTP:CH"@, channel, seq![63u8])) == Ok::<
                Option<UsbIntent>,
                CommandError,
            >(None)
        }),
{
    reveal_strlit(":STAT ");
    reveal_strlit(" STAT ");
    reveal_strlit(":STAT 1");
    reveal_strlit(" STAT 1");
    reveal_strlit(":STAT 0");
    reveal_strlit(" STAT 0");
    reveal_strlit(" ON");
    reveal_strlit(" OFF");
    let state = if enabled {
        seq![49u8]
    } else {
        seq![48u8]
    };
    let older = if colon {
        ascii(":STAT "@)
    } else {
        ascii(" STAT "@)
    };
    let newer = if enabled {
        ascii(" ON"@)
    } else {
        ascii(" OFF"@)
    };
    lemma_output_form(channel, older + state);
    lemma_output_form(channel, newer);
    lemma_output_form(channel, seq![63u8]);
    assert((older + state).len() == 7 && (older + state)[6] == state[0]);
    if enabled {
        assert(older + state =~= if colon {
            ascii(":STAT 1"@)
        } else {
            ascii(" STAT 1"@)
        });
    } else {
        assert(older + state =~= if colon {
            ascii(":STAT 0"@)
        } else {
            ascii(" STAT 0"@)
        });
        assert(ascii(":STAT 1"@)[6] == 49 && ascii(" STAT 1"@)[6] == 49);
        assert(ascii(" ON"@).len() == 3 && newer.len() == 4 && ascii(":STAT 1"@).len() == 7
            && ascii(" STAT 1"@).len() == 7);
    }
}

proof fn lemma_output_form(channel: u8, form: Seq<u8>)
    requires
        channel < 5,
    ensures
        compat_mutation(for_channel("OUTP:CH"@, channel, form)) == crate::usb_command::output_mutation(
            seq![(49 + channel) as u8] + form,
        ),
        (seq![(49 + channel) as u8] + form).skip(1) == form,
{
    let tail = seq![(49 + channel) as u8] + form;
    lemma_starts("OUTP:CH"@, tail);
    assert(for_channel("OUTP:CH"@, channel, form) =~= ascii("OUTP:CH"@) + tail);
    assert(tail.skip(1) =~= form);
}

/// An older voltage query is answered for the channel that it names, in
/// hundredths of a volt, to the nearest; without a sensor with `nan`.
pub proof fn older_voltage_queries_are_answered(state: AppState, channel: u8, hundredths: nat)
    requires
        channel < 5,
        hundredths * 10 <= state.channels[channel as int].measurement.millivolts + 5 < (hundredths
            + 1) * 10,
    ensures
        query_text(for_channel("MEAS:VOLT:CH"@, channel, seq![63u8]), state) == Ok::<
            Option<Seq<u8>>,
            CommandError,
        >(
            Some(
                if state.channels[channel as int].measurement.valid {
                    fixed2(hundredths) + seq![13, 10]
                } else {
                    seq![110u8, 97, 110, 13, 10]
                },
            ),
        ),
{
    let tail = seq![(49 + channel) as u8] + seq![63u8];
    reveal_strlit("nan");
    reveal_strlit("\r\n");
    lemma_starts("MEAS:VOLT:CH"@, tail);
    assert(for_channel("MEAS:VOLT:CH"@, channel, seq![63u8]) =~= ascii("MEAS:VOLT:CH"@) + tail);
    assert(ascii("\r\n"@) =~= seq![13u8, 10]);
    assert(ascii("nan"@) + ascii("\r\n"@) =~= seq![110u8, 97, 110, 13, 10]);
    assert((state.channels[channel as int].measurement.millivolts + 5) / 10 == hundredths);
}

/// The bytes of a measured voltage, in volts rounded to hundredths, and current,
/// in amperes, each with a comma after it.
pub open spec fn listed(sample: Measurement) -> Seq<u8> {
    if sample.valid {
        fixed2(((sample.millivolts + 5) / 10) as nat) + seq![44] + fixed3(
            sample.milliamps as nat,
        ) + seq![44]
    } else {
        ascii("nan"@) + seq![44] + ascii("nan"@) + seq![44]
    }
}

/// A comma, and 1 or 0.
pub open spec fn flagged(flag: bool) -> Seq<u8> {
    seq![
        44,
        if flag {
            49
        } else {
            48
        },
    ]
}

/// A comma, and thousandths rounded to hundredths.
pub open spec fn limited(thousandths: u16) -> Seq<u8> {
    seq![44] + fixed2(((thousandths + 5) / 10) as nat)
}

/// The measurements of the five channels, in order.
pub open spec fn all_listed(state: AppState) -> Seq<u8> {
    listed(state.channels[0].measurement) + listed(state.channels[1].measurement) + listed(
        state.channels[2].measurement,
    ) + listed(state.channels[3].measurement) + listed(state.channels[4].measurement)
}

/// Which of the five channels are on, in order.
pub open spec fn all_flagged(state: AppState) -> Seq<u8> {
    flagged(state.channels[0].physical_enabled) + flagged(state.channels[1].physical_enabled)
        + flagged(state.channels[2].physical_enabled) + flagged(state.channels[3].physical_enabled)
        + flagged(state.channels[4].physical_enabled)
}

/// The current limits of the five channels, in order.
pub open spec fn all_limited(state: AppState) -> Seq<u8> {
    limited(state.channels[0].current_limit_ma) + limited(state.channels[1].current_limit_ma)
        + limited(state.channels[2].current_limit_ma) + limited(state.channels[3].current_limit_ma)
        + limited(state.channels[4].current_limit_ma)
}

proof fn lemma_four_more(head: Seq<u8>, first: Seq<u8>, second: Seq<u8>, third: Seq<u8>, fourth: Seq<u8>)
    ensures
        head + first + second + third + fourth == head + (first + second + third + fourth),
{
    assert(head + first + second + third + fourth =~= head + (first + second + third + fourth));
}

proof fn lemma_two_more(head: Seq<u8>, first: Seq<u8>, second: Seq<u8>)
    ensures
        head + first + second == head + (first + second),
{
    assert(head + first + second =~= head + (first + second));
}

proof fn lemma_listed(head: Seq<u8>, sample: Measurement)
    ensures
        head + crate::usb_command::voltage_text(sample) + ascii(","@)
            + crate::usb_command::current_text(sample) + ascii(","@) == head + listed(sample),
{
    reveal_strlit(",");
    assert(ascii(","@) =~= seq![44]);
    lemma_four_more(
        head,
        crate::usb_command::voltage_text(sample),
        ascii(","@),
        crate::usb_command::current_text(sample),
        ascii(","@),
    );
}

proof fn lemma_flagged(head: Seq<u8>, flag: bool)
    ensures
        head + ascii(","@) + crate::usb_command::flag_text(flag) == head + flagged(flag),
{
    reveal_strlit(",");
    reveal_strlit("1");
    reveal_strlit("0");
    assert(ascii(","@) + crate::usb_command::flag_text(flag) =~= flagged(flag));
    lemma_two_more(head, ascii(","@), crate::usb_command::flag_text(flag));
}

proof fn lemma_limited(head: Seq<u8>, thousandths: u16)
    ensures
        head + ascii(","@) + fixed2(crate::usb_command::rounded(thousandths)) == head + limited(
            thousandths,
        ),
{
    reveal_strlit(",");
    assert(ascii(","@) =~= seq![44]);
    lemma_two_more(head, ascii(","@), fixed2(crate::usb_command::rounded(thousandths)));
}

proof fn lemma_all_listed(state: AppState)
    ensures
        crate::usb_command::measured_fields(state, 5) == all_listed(state),
{
    let none = crate::usb_command::measured_fields(state, 0);
    lemma_listed(none, state.channels[0].measurement);
    assert(none + listed(state.channels[0].measurement) =~= listed(state.channels[0].measurement));
    let one = crate::usb_command::measured_fields(state, 1);
    lemma_listed(one, state.channels[1].measurement);
    let two = crate::usb_command::measured_fields(state, 2);
    lemma_listed(two, state.channels[2].measurement);
    let three = crate::usb_command::measured_fields(state, 3);
    lemma_listed(three, state.channels[3].measurement);
    let four = crate::usb_command::measured_fields(state, 4);
    lemma_listed(four, state.channels[4].measurement);
}

proof fn lemma_all_flagged(state: AppState)
    ensures
        crate::usb_command::enabled_fields(state, 5) == all_flagged(state),
{
    let none = crate::usb_command::enabled_fields(state, 0);
    lemma_flagged(none, state.channels[0].physical_enabled);
    assert(none + flagged(state.channels[0].physical_enabled) =~= flagged(
        state.channels[0].physical_enabled,
    ));
    let one = crate::usb_command::enabled_fields(state, 1);
    lemma_flagged(one, state.channels[1].physical_enabled);
    let two = crate::usb_command::enabled_fields(state, 2);
    lemma_flagged(two, state.channels[2].physical_enabled);
    let three = crate::usb_command::enabled_fields(state, 3);
    lemma_flagged(three, state.channels[3].physical_enabled);
    let four = crate::usb_command::enabled_fields(state, 4);
    lemma_flagged(four, state.channels[4].physical_enabled);
}

proof fn lemma_all_limited(state: AppState)
    ensures
        crate::usb_command::limit_fields(state, 5) == all_limited(state),
{
    let none = crate::usb_command::limit_fields(state, 0);
    lemma_limited(none, state.channels[0].current_limit_ma);
    assert(none + limited(state.channels[0].current_limit_ma) =~= limited(
        state.channels[0].current_limit_ma,
    ));
    let one = crate::usb_command::limit_fields(state, 1);
    lemma_limited(one, state.channels[1].current_limit_ma);
    let two = crate::usb_command::limit_fields(state, 2);
    lemma_limited(two, state.channels[2].current_limit_ma);
    let three = crate::usb_command::limit_fields(state, 3);
    lemma_limited(three, state.channels[3].current_limit_ma);
    let four = crate::usb_command::limit_fields(state, 4);
    lemma_limited(four, state.channels[4].current_limit_ma);
}

/// True while an uploaded waveform is under way on `channel`.
pub open spec fn uploaded(state: AppState, channel: u8) -> bool {
    state.awg_source == AwgSource::Arbitrary && state.arb_run.channel == channel && (
    state.awg_status is StartRequested || state.awg_status is Starting || state.awg_status
        is Running || state.awg_status is StopRequested)
}

/// The bulk query answers with the measurements of the five channels and of the
/// input, the temperature, which channels are on, where an uploaded waveform is
/// under way, the current limits, and the two voltages that can be set.
pub proof fn everything_is_answered_at_once(state: AppState)
    ensures
        query_text(ascii("MEAS:ALL?"@), state) == Ok::<Option<Seq<u8>>, CommandError>(
            Some(
                all_listed(state) + listed(state.sink) + crate::usb_command::temperature_text(
                    state,
                ) + all_flagged(state) + flagged(uploaded(state, 3)) + flagged(uploaded(state, 4))
                    + all_limited(state) + limited(state.channels[3].setpoint_mv) + limited(
                    state.channels[4].setpoint_mv,
                ) + seq![13, 10],
            ),
        ),
{
    reveal_strlit("MEAS:ALL?");
    reveal_strlit("MEAS:VOLT:CH");
    reveal_strlit("\r\n");
    assert(ascii("MEAS:ALL?"@).len() == 9);
    assert(ascii("\r\n"@) =~= seq![13, 10]);
    lemma_all_listed(state);
    lemma_all_flagged(state);
    lemma_all_limited(state);
    assert(crate::usb_command::arbitrary_active(state, 3) == uploaded(state, 3));
    assert(crate::usb_command::arbitrary_active(state, 4) == uploaded(state, 4));
    lemma_listed(all_listed(state), state.sink);
    let measured = all_listed(state) + listed(state.sink);
    let told = measured + crate::usb_command::temperature_text(state) + all_flagged(state);
    lemma_flagged(told, uploaded(state, 3));
    lemma_flagged(told + flagged(uploaded(state, 3)), uploaded(state, 4));
    let shown = told + flagged(uploaded(state, 3)) + flagged(uploaded(state, 4)) + all_limited(
        state,
    );
    lemma_limited(shown, state.channels[3].setpoint_mv);
    lemma_limited(shown + limited(state.channels[3].setpoint_mv), state.channels[4].setpoint_mv);
}

/// The temperature of the bulk query is in tenths of a degree, rounded towards
/// zero, with its sign.
pub proof fn bulk_temperatures_are_in_tenths(state: AppState, tenths: nat)
    requires
        state.temp_valid,
        state.temp_sixteenths_c >= 0 ==> tenths * 16 <= state.temp_sixteenths_c * 10 < tenths * 16
            + 16,
        state.temp_sixteenths_c < 0 ==> tenths * 16 <= -state.temp_sixteenths_c * 10 < tenths * 16
            + 16,
    ensures
        crate::usb_command::temperature_text(state) == (if state.temp_sixteenths_c < 0 && tenths
            > 0 {
            seq![45] + crate::text::fixed1(tenths)
        } else {
            crate::text::fixed1(tenths)
        }),
{
    reveal_strlit("-");
    assert(ascii("-"@) =~= seq![45]);
}

proof fn lemma_unprefixed(command: Seq<u8>)
    requires
        command.len() > 5,
        command[0] != 79,
        command[0] != 77,
        command[0] == 83 ==> command[1] == 89 && command[5] != 80,
    ensures
        !begins(command, "SYST:PROT:CH"@),
        !begins(command, "OUTP:CH"@),
        !begins(command, "SOUR:CURR:CH"@),
        !begins(command, "SINK:LIMIT "@),
        !begins(command, "MEAS:CH"@),
        !begins(command, "SOUR:MODE:CH"@),
        command != ascii("SOUR:WAVE:CH4:ARB:STAT?"@),
        command != ascii("SOUR:WAVE:CH4:ARB:STOP"@),
        command != ascii("SOUR:WAVE:CH5:ARB:STAT?"@),
        command != ascii("SOUR:WAVE:CH5:ARB:STOP"@),
{
    reveal_strlit("SYST:PROT:CH");
    reveal_strlit("OUTP:CH");
    reveal_strlit("SOUR:CURR:CH");
    reveal_strlit("SINK:LIMIT ");
    reveal_strlit("MEAS:CH");
    reveal_strlit("SOUR:MODE:CH");
    reveal_strlit("SOUR:WAVE:CH4:ARB:STAT?");
    reveal_strlit("SOUR:WAVE:CH4:ARB:STOP");
    reveal_strlit("SOUR:WAVE:CH5:ARB:STAT?");
    reveal_strlit("SOUR:WAVE:CH5:ARB:STOP");
    let at: int = if command[0] == 83 {
        1
    } else {
        0
    };
    lemma_other(
        command,
        "SYST:PROT:CH"@,
        if command[0] == 83 {
            5
        } else {
            0
        },
    );
    lemma_other(command, "OUTP:CH"@, 0);
    lemma_other(command, "MEAS:CH"@, 0);
    lemma_other(command, "SOUR:CURR:CH"@, at);
    lemma_other(command, "SINK:LIMIT "@, at);
    lemma_other(command, "SOUR:MODE:CH"@, at);
    lemma_other(command, "SOUR:WAVE:CH4:ARB:STAT?"@, at);
    lemma_other(command, "SOUR:WAVE:CH4:ARB:STOP"@, at);
    lemma_other(command, "SOUR:WAVE:CH5:ARB:STAT?"@, at);
    lemma_other(command, "SOUR:WAVE:CH5:ARB:STOP"@, at);
}

/// A host restarts the device, and sends it to its bootloader; both are answered
/// once they are carried out.
pub proof fn restarts_are_asked_for(
    state: AppState,
    monitors: [ProtectionMonitor; 5],
    telemetry: UsbTelemetry,
)
    ensures
        handled(
            ascii("SYST:REBOOT"@),
            state,
            monitors,
            telemetry,
            ArbCommand::Unrelated,
        ) == (ReplyModel { intent: UsbIntent::Reboot, response: None }),
        handled(
            ascii("JUMP:BOOTLOADER"@),
            state,
            monitors,
            telemetry,
            ArbCommand::Unrelated,
        ) == (ReplyModel { intent: UsbIntent::JumpToBootloader, response: None }),
{
    let reboot = ascii("SYST:REBOOT"@);
    let jump = ascii("JUMP:BOOTLOADER"@);
    reveal_strlit("SYST:REBOOT");
    reveal_strlit("JUMP:BOOTLOADER");
    reveal_strlit("*IDN?");
    reveal_strlit("SYST:BUILD?");
    reveal_strlit("SYST:HWERR?");
    reveal_strlit("SYST:TPS:CH5?");
    reveal_strlit("SYST:PD?");
    reveal_strlit("SYST:TICK?");
    reveal_strlit("MEAS:TEMP?");
    reveal_strlit("MEAS:SINK?");
    reveal_strlit("SINK:LIMIT?");
    reveal_strlit("SYST:UI?");
    assert(reboot[0] == 83 && reboot[1] == 89 && reboot[5] == 82 && reboot.last() == 84);
    assert(jump[0] == 74 && jump.last() == 82);
    lemma_unprefixed(reboot);
    lemma_unprefixed(jump);
    lemma_other(reboot, "*IDN?"@, 0);
    lemma_other(reboot, "SYST:BUILD?"@, 5);
    lemma_other(reboot, "SYST:HWERR?"@, 5);
    lemma_other(reboot, "SYST:TPS:CH5?"@, 5);
    lemma_other(reboot, "SYST:PD?"@, 5);
    lemma_other(reboot, "SYST:TICK?"@, 5);
    lemma_other(reboot, "MEAS:TEMP?"@, 0);
    lemma_other(reboot, "MEAS:SINK?"@, 0);
    lemma_other(reboot, "SINK:LIMIT?"@, 1);
    lemma_other(reboot, "SYST:UI?"@, 5);
    lemma_other(reboot, "JUMP:BOOTLOADER"@, 0);
    lemma_other(jump, "*IDN?"@, 0);
    lemma_other(jump, "SYST:BUILD?"@, 0);
    lemma_other(jump, "SYST:HWERR?"@, 0);
    lemma_other(jump, "SYST:TPS:CH5?"@, 0);
    lemma_other(jump, "SYST:PD?"@, 0);
    lemma_other(jump, "SYST:TICK?"@, 0);
    lemma_other(jump, "MEAS:TEMP?"@, 0);
    lemma_other(jump, "MEAS:SINK?"@, 0);
    lemma_other(jump, "SINK:LIMIT?"@, 0);
    lemma_other(jump, "SYST:UI?"@, 0);
}

/// A current limit is refused with the reason: a channel that there is not and a
/// current above 3 A are out of range, and anything but a space behind the
/// channel is no syntax.
pub proof fn wrong_limits_are_refused(text: Seq<u8>, state: AppState)
    ensures
        text.len() == 0 || text[0] < 49 || text[0] > 53 ==> limit_handled(text, state).response
            == Some(ascii("ERR:RANGE\r\n"@)),
        text.len() == 1 && 49 <= text[0] <= 53 ==> limit_handled(text, state).response == Some(
            ascii("ERR:SYNTAX\r\n"@),
        ),
        text.len() > 2 && 49 <= text[0] <= 53 && text[1] != 32 ==> limit_handled(
            text,
            state,
        ).response == Some(ascii("ERR:SYNTAX\r\n"@)),
        text.len() >= 2 && 49 <= text[0] <= 53 && text[1] == 32 ==> {
            let reply = limit_handled(text, state);
            match milliunits(text.skip(2)) {
                Some(milliamps) => if milliamps <= 3_000 {
                    reply == (ReplyModel {
                        intent: UsbIntent::SetCurrentLimit {
                            channel: (text[0] - 49) as u8,
                            milliamps,
                        },
                        response: None,
                    })
                } else {
                    reply.response == Some(ascii("ERR:RANGE\r\n"@)) && reply.intent
                        == UsbIntent::NoAction
                },
                None => reply.response == Some(ascii("ERR:RANGE\r\n"@)) && reply.intent
                    == UsbIntent::NoAction,
            }
        },
{
}

/// A number of thousandths is digits, with a point and up to three more digits
/// where there is a fraction; anything else is no number.
pub proof fn only_numbers_are_read(text: Seq<u8>)
    ensures
        text.len() == 0 ==> milliunits(text) is None,
        text.len() > 0 && text[0] == 46 ==> milliunits(text) is None,
        text.len() > 0 && text[0] != 46 && !(48 <= text[0] <= 57) ==> milliunits(text) is None,
{
    if text.len() > 0 && text[0] != 46 && !(48 <= text[0] <= 57) {
        lemma_point_bounds(text);
        assert(text.take(point(text))[0] == text[0]);
    }
}

proof fn lemma_point_bounds(text: Seq<u8>)
    ensures
        0 <= point(text) <= text.len(),
        text.len() > 0 && text[0] != 46 ==> point(text) >= 1,
    decreases text.len(),
{
    if text.len() > 0 && text[0] != 46 {
        lemma_point_bounds(text.skip(1));
    }
}

} // verus!
