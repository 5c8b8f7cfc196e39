//! What is painted: every value that a screen is for, where it belongs, and
//! again whenever it changed.

use crate::app::{
    AppState, AwgStatus, AwgWaveform, ChannelSnapshot, ControlFocus, Fault, RegulationMode, Screen,
    TemperatureUnit,
};
use crate::canvas::{Color, DrawModel, Font, Picture};
use crate::text::{ascii, decimal, fixed1, fixed2, fixed3};
use crate::view::{rendered, transition_rendered};
use crate::view_projection::{channel_shown, ChannelProjection};
use vstd::prelude::*;

verus! {

/// True of a text at a place.
pub open spec fn says(model: DrawModel, text: Seq<u8>, x: int, y: int) -> bool {
    model matches DrawModel::Text { text: found, x: left, y: top, font, color } && found == text
        && left == x && top == y
}

/// True of a picture that has a text at a place.
pub open spec fn shows(picture: Picture, text: Seq<u8>, x: int, y: int) -> bool {
    exists|i: int| 0 <= i < picture.len() && says(#[trigger] picture[i], text, x, y)
}

/// True when `after` is `before` with more painted on it.
pub open spec fn grown(before: Picture, after: Picture) -> bool {
    &&& before.len() <= after.len()
    &&& forall|i: int| 0 <= i < before.len() ==> #[trigger] after[i] == before[i]
}

proof fn lemma_written(picture: Picture, text: Seq<u8>, x: int, y: int, font: Font, color: Color)
    ensures
        shows(crate::canvas::written(picture, text, x, y, font, color), text, x, y),
        grown(picture, crate::canvas::written(picture, text, x, y, font, color)),
{
    let after = crate::canvas::written(picture, text, x, y, font, color);
    assert(says(after[picture.len() as int], text, x, y));
}

proof fn lemma_still(before: Picture, after: Picture, text: Seq<u8>, x: int, y: int)
    requires
        grown(before, after),
        shows(before, text, x, y),
    ensures
        shows(after, text, x, y),
{
    let i = choose|i: int| 0 <= i < before.len() && says(#[trigger] before[i], text, x, y);
    assert(after[i] == before[i]);
}

/// What the overview shows of a measured value: hundredths, or dashes.
pub open spec fn measured_or_dashes(valid: bool, milli: u16) -> Seq<u8> {
    if valid {
        fixed2((milli as int / 10) as nat)
    } else {
        ascii("--.--"@)
    }
}

/// True of a picture with a channel's row of the overview: its number, its
/// voltage setting, its current limit, and what is measured, side by side.
pub open spec fn shows_row(picture: Picture, index: int, channel: ChannelSnapshot) -> bool {
    let y = 50 + 24 * index;
    &&& shows(picture, decimal((index + 1) as nat), 9, y)
    &&& shows(picture, fixed2((channel.setpoint_mv as int / 10) as nat), 32, y)
    &&& shows(picture, fixed2((channel.current_limit_ma as int / 10) as nat), 85, y)
    &&& shows(
        picture,
        measured_or_dashes(channel.measurement.valid, channel.measurement.millivolts),
        138,
        y,
    )
    &&& shows(
        picture,
        measured_or_dashes(channel.measurement.valid, channel.measurement.milliamps),
        191,
        y,
    )
}

proof fn lemma_row_still(before: Picture, after: Picture, index: int, channel: ChannelSnapshot)
    requires
        grown(before, after),
        shows_row(before, index, channel),
    ensures
        shows_row(after, index, channel),
{
    let y = 50 + 24 * index;
    lemma_still(before, after, decimal((index + 1) as nat), 9, y);
    lemma_still(before, after, fixed2((channel.setpoint_mv as int / 10) as nat), 32, y);
    lemma_still(before, after, fixed2((channel.current_limit_ma as int / 10) as nat), 85, y);
    lemma_still(
        before,
        after,
        measured_or_dashes(channel.measurement.valid, channel.measurement.millivolts),
        138,
        y,
    );
    lemma_still(
        before,
        after,
        measured_or_dashes(channel.measurement.valid, channel.measurement.milliamps),
        191,
        y,
    );
}

proof fn lemma_cell(picture: Picture, text: Seq<u8>, column: int, index: int)
    requires
        0 <= column < 6,
        0 <= index < 5,
    ensures
        grown(picture, crate::view_power::cell_drawn(picture, text, column, index)),
        shows(
            crate::view_power::cell_drawn(picture, text, column, index),
            text,
            seq![9int, 32, 85, 138, 191, 246][column],
            50 + 24 * index,
        ),
{
    let blank = crate::view_power::cell_cleared(picture, column, index);
    lemma_written(
        blank,
        text,
        crate::view_power::COLUMN_TEXT_X[column] as int,
        crate::view_power::row_top(index) + 5,
        Font::Bold8x13,
        Color::White,
    );
    assert(crate::view_power::COLUMN_TEXT_X[column] == seq![9int, 32, 85, 138, 191, 246][column]);
}

proof fn lemma_status(
    picture: Picture,
    index: int,
    projection: ChannelProjection,
    focused: bool,
)
    ensures
        grown(picture, crate::view_power::status_drawn(picture, index, projection, focused)),
{
}

proof fn lemma_channel(picture: Picture, index: int, channel: ChannelSnapshot, focused: bool)
    requires
        0 <= index < 5,
    ensures
        grown(picture, crate::view_power::channel_drawn(picture, index, channel, focused)),
        shows_row(
            crate::view_power::channel_drawn(picture, index, channel, focused),
            index,
            channel,
        ),
{
    let shown = channel_shown(channel);
    let y = 50 + 24 * index;
    let number = decimal((index + 1) as nat);
    let first = crate::view_power::cell_drawn(picture, number, 0, index);
    lemma_cell(picture, number, 0, index);
    let second = crate::view_power::setpoint_drawn(first, index, shown);
    let setpoint = fixed2(shown.setpoint_centivolts as nat);
    lemma_cell(first, setpoint, 1, index);
    let third = crate::view_power::limit_drawn(second, index, shown);
    let limit = fixed2(shown.limit_centiamps as nat);
    lemma_cell(second, limit, 2, index);
    let fourth = crate::view_power::voltage_drawn(third, index, shown);
    let voltage = crate::view_power::measured_label(shown.measured_centivolts);
    lemma_cell(third, voltage, 3, index);
    let fifth = crate::view_power::current_drawn(fourth, index, shown);
    let current = crate::view_power::measured_label(shown.measured_centiamps);
    lemma_cell(fourth, current, 4, index);
    let last = crate::view_power::status_drawn(fifth, index, shown, focused);
    lemma_status(fifth, index, shown, focused);
    lemma_still(first, last, number, 9, y);
    lemma_still(second, last, setpoint, 32, y);
    lemma_still(third, last, limit, 85, y);
    lemma_still(fourth, last, voltage, 138, y);
    lemma_still(fifth, last, current, 191, y);
}

proof fn lemma_channels(picture: Picture, state: AppState, count: nat, index: int)
    requires
        count <= 5,
        0 <= index < count,
    ensures
        shows_row(
            crate::view_power::channels_drawn(picture, state, count),
            index,
            state.channels[index],
        ),
    decreases count,
{
    let before = crate::view_power::channels_drawn(picture, state, (count - 1) as nat);
    let after = crate::view_power::channels_drawn(picture, state, count);
    let focused = state.focus == ControlFocus::OverviewOutput((count - 1) as u8);
    lemma_channel(before, count - 1, state.channels[count - 1], focused);
    if index < count - 1 {
        lemma_channels(picture, state, (count - 1) as nat, index);
        lemma_row_still(before, after, index, state.channels[index]);
    }
}

/// The overview shows every channel's number, setting, limit and measurement in
/// a row of its own.
pub proof fn the_overview_shows_every_channel(picture: Picture, state: AppState, index: int)
    requires
        state.screen == Screen::Overview,
        0 <= index < 5,
    ensures
        shows_row(rendered(picture, state), index, state.channels[index]),
{
    let titled = crate::canvas::written(
        crate::canvas::cleared(picture, Color::Black),
        ascii("BenchVolt"@),
        4,
        1,
        Font::Large10x20,
        Color::White,
    );
    let topped = crate::canvas::filled(
        crate::view_power::temperature_drawn(
            crate::view_power::recovery_drawn(titled, state),
            state,
        ),
        0,
        24,
        320,
        1,
        Color::White,
    );
    let grid = crate::view_power::rows_drawn(
        crate::view_power::columns_drawn(crate::view_power::headings_drawn(topped), 7),
        6,
    );
    lemma_channels(grid, state, 5, index);
}

proof fn lemma_channel_updated(
    picture: Picture,
    index: int,
    before: ChannelProjection,
    after: ChannelProjection,
    was: bool,
    is_now: bool,
)
    requires
        0 <= index < 5,
    ensures
        ({
            let drawn = crate::view_power::channel_updated(
                picture,
                index,
                before,
                after,
                was,
                is_now,
            );
            let y = 50 + 24 * index;
            &&& grown(picture, drawn)
            &&& before.setpoint_centivolts != after.setpoint_centivolts ==> shows(
                drawn,
                fixed2(after.setpoint_centivolts as nat),
                32,
                y,
            )
            &&& before.limit_centiamps != after.limit_centiamps ==> shows(
                drawn,
                fixed2(after.limit_centiamps as nat),
                85,
                y,
            )
            &&& before.measured_centivolts != after.measured_centivolts ==> shows(
                drawn,
                crate::view_power::measured_label(after.measured_centivolts),
                138,
                y,
            )
            &&& before.measured_centiamps != after.measured_centiamps ==> shows(
                drawn,
                crate::view_power::measured_label(after.measured_centiamps),
                191,
                y,
            )
            &&& before.status != after.status || was != is_now ==> drawn.len() > picture.len()
        }),
{
    let y = 50 + 24 * index;
    let setpoint = fixed2(after.setpoint_centivolts as nat);
    let limit = fixed2(after.limit_centiamps as nat);
    let voltage = crate::view_power::measured_label(after.measured_centivolts);
    let current = crate::view_power::measured_label(after.measured_centiamps);
    let first = if before.setpoint_centivolts != after.setpoint_centivolts {
        crate::view_power::setpoint_drawn(picture, index, after)
    } else {
        picture
    };
    lemma_cell(picture, setpoint, 1, index);
    let second = if before.limit_centiamps != after.limit_centiamps {
        crate::view_power::limit_drawn(first, index, after)
    } else {
        first
    };
    lemma_cell(first, limit, 2, index);
    let third = if before.measured_centivolts != after.measured_centivolts {
        crate::view_power::voltage_drawn(second, index, after)
    } else {
        second
    };
    lemma_cell(second, voltage, 3, index);
    let fourth = if before.measured_centiamps != after.measured_centiamps {
        crate::view_power::current_drawn(third, index, after)
    } else {
        third
    };
    lemma_cell(third, current, 4, index);
    lemma_status(fourth, index, after, is_now);
    let last = crate::view_power::channel_updated(picture, index, before, after, was, is_now);
    assert(grown(fourth, last));
    if before.setpoint_centivolts != after.setpoint_centivolts {
        lemma_still(first, last, setpoint, 32, y);
    }
    if before.limit_centiamps != after.limit_centiamps {
        lemma_still(second, last, limit, 85, y);
    }
    if before.measured_centivolts != after.measured_centivolts {
        lemma_still(third, last, voltage, 138, y);
    }
    if before.measured_centiamps != after.measured_centiamps {
        lemma_still(fourth, last, current, 191, y);
    }
}

/// True of a picture that shows again what changed in a channel's row of the
/// overview.
pub open spec fn shows_changes(
    picture: Picture,
    index: int,
    before: ChannelSnapshot,
    after: ChannelSnapshot,
) -> bool {
    let y = 50 + 24 * index;
    let told = before.measurement.valid == after.measurement.valid;
    &&& before.setpoint_mv as int / 10 != after.setpoint_mv as int / 10 ==> shows(
        picture,
        fixed2((after.setpoint_mv as int / 10) as nat),
        32,
        y,
    )
    &&& before.current_limit_ma as int / 10 != after.current_limit_ma as int / 10 ==> shows(
        picture,
        fixed2((after.current_limit_ma as int / 10) as nat),
        85,
        y,
    )
    &&& !told || after.measurement.valid && before.measurement.millivolts as int / 10
        != after.measurement.millivolts as int / 10 ==> shows(
        picture,
        measured_or_dashes(after.measurement.valid, after.measurement.millivolts),
        138,
        y,
    )
    &&& !told || after.measurement.valid && before.measurement.milliamps as int / 10
        != after.measurement.milliamps as int / 10 ==> shows(
        picture,
        measured_or_dashes(after.measurement.valid, after.measurement.milliamps),
        191,
        y,
    )
}

proof fn lemma_changes_still(
    drawn: Picture,
    more: Picture,
    index: int,
    before: ChannelSnapshot,
    after: ChannelSnapshot,
)
    requires
        grown(drawn, more),
        shows_changes(drawn, index, before, after),
    ensures
        shows_changes(more, index, before, after),
{
    let y = 50 + 24 * index;
    let setpoint = fixed2((after.setpoint_mv as int / 10) as nat);
    let limit = fixed2((after.current_limit_ma as int / 10) as nat);
    let voltage = measured_or_dashes(after.measurement.valid, after.measurement.millivolts);
    let current = measured_or_dashes(after.measurement.valid, after.measurement.milliamps);
    if shows(drawn, setpoint, 32, y) {
        lemma_still(drawn, more, setpoint, 32, y);
    }
    if shows(drawn, limit, 85, y) {
        lemma_still(drawn, more, limit, 85, y);
    }
    if shows(drawn, voltage, 138, y) {
        lemma_still(drawn, more, voltage, 138, y);
    }
    if shows(drawn, current, 191, y) {
        lemma_still(drawn, more, current, 191, y);
    }
}

proof fn lemma_overview_updated(
    picture: Picture,
    before: AppState,
    after: AppState,
    count: nat,
    index: int,
)
    requires
        count <= 5,
        0 <= index < count,
    ensures
        shows_changes(
            crate::view_power::overview_updated(picture, before, after, count),
            index,
            before.channels[index],
            after.channels[index],
        ),
    decreases count,
{
    let at = count - 1;
    let drawn = crate::view_power::overview_updated(picture, before, after, (count - 1) as nat);
    lemma_channel_updated(
        drawn,
        at,
        channel_shown(before.channels[at]),
        channel_shown(after.channels[at]),
        before.focus == ControlFocus::OverviewOutput(at as u8),
        after.focus == ControlFocus::OverviewOutput(at as u8),
    );
    let more = crate::view_power::overview_updated(picture, before, after, count);
    if index < at {
        lemma_overview_updated(picture, before, after, (count - 1) as nat, index);
        lemma_changes_still(drawn, more, index, before.channels[index], after.channels[index]);
    }
}

/// What changes on the overview is painted again, in the row and the column that
/// it belongs to.
pub proof fn the_overview_follows_every_channel(
    picture: Picture,
    before: AppState,
    after: AppState,
    index: int,
)
    requires
        before.screen == Screen::Overview,
        after.screen == Screen::Overview,
        0 <= index < 5,
    ensures
        shows_changes(
            transition_rendered(picture, before, after),
            index,
            before.channels[index],
            after.channels[index],
        ),
{
    let headed = crate::view::header_updated(picture, before, after);
    lemma_overview_updated(headed, before, after, 5, index);
}

proof fn lemma_segments(picture: Picture, large: bool, mask: u8, x: int, y: int, count: nat)
    ensures
        grown(picture, crate::view_detail::segments_drawn(picture, large, mask, x, y, count)),
    decreases count,
{
    if count > 0 {
        lemma_segments(picture, large, mask, x, y, (count - 1) as nat);
    }
}

proof fn lemma_digit(picture: Picture, large: bool, character: char, x: int, y: int)
    ensures
        grown(picture, crate::view_detail::digit_drawn(picture, large, character, x, y)),
{
    match crate::view_projection::segments(character) {
        Some(mask) => {
            lemma_segments(picture, large, mask, x, y, 7);
        },
        None => {},
    }
}

proof fn lemma_hero_digits(picture: Picture, text: Seq<u8>, cursor: int)
    ensures
        grown(picture, crate::view_detail::hero_digits_drawn(picture, text, cursor).0),
    decreases text.len(),
{
    if text.len() > 0 {
        if text[0] == 46 {
            lemma_hero_digits(
                crate::canvas::circled(picture, cursor + 1, 63, 5, Color::White),
                text.skip(1),
                cursor + 7,
            );
        } else {
            let digit = crate::view_detail::digit_drawn(picture, true, text[0] as char, cursor, 31);
            lemma_digit(picture, true, text[0] as char, cursor, 31);
            lemma_hero_digits(digit, text.skip(1), cursor + 25);
        }
    }
}

proof fn lemma_hero(picture: Picture, value: Option<u32>, x: int, suffix: Seq<u8>)
    ensures
        grown(picture, crate::view_detail::hero_drawn(picture, value, x, suffix)),
{
    lemma_hero_digits(
        crate::canvas::filled(picture, x - 7, 29, 151, 42, Color::Black),
        crate::view_detail::hero_label(value),
        x,
    );
}

proof fn lemma_power_digits(picture: Picture, text: Seq<u8>, cursor: int)
    ensures
        grown(picture, crate::view_detail::power_digits_drawn(picture, text, cursor)),
    decreases text.len(),
{
    if text.len() > 0 {
        let character = text[0];
        if 48 <= character <= 57 || character == 45 {
            lemma_digit(picture, false, character as char, cursor, 91);
            lemma_power_digits(
                crate::view_detail::digit_drawn(picture, false, character as char, cursor, 91),
                text.skip(1),
                cursor + 17,
            );
        } else if character == 46 {
            lemma_power_digits(
                crate::canvas::circled(picture, cursor, 114, 4, Color::White),
                text.skip(1),
                cursor + 6,
            );
        } else if character == 87 {
            lemma_power_digits(
                crate::canvas::written(
                    picture,
                    ascii("W"@),
                    cursor,
                    95,
                    Font::Large10x20,
                    Color::White,
                ),
                text.skip(1),
                cursor + 10,
            );
        } else {
            lemma_power_digits(picture, text.skip(1), cursor + 5);
        }
    }
}

/// A channel's own screen names the channel, and shows its voltage setting in
/// volts, its current limit in amperes and, on an adjustable channel, how it is
/// regulated.
pub proof fn a_channel_screen_shows_its_settings(picture: Picture, state: AppState, channel: u8)
    requires
        state.screen == Screen::Channel(channel),
        channel < 5,
    ensures
        ({
            let drawn = rendered(picture, state);
            let shown = state.channels[channel as int];
            &&& shows(drawn, ascii("Channel "@) + decimal((channel + 1) as nat), 4, 1)
            &&& shows(
                drawn,
                fixed2((shown.setpoint_mv as int / 10) as nat) + ascii("V"@),
                12,
                135,
            )
            &&& shows(
                drawn,
                fixed2((shown.current_limit_ma as int / 10) as nat) + ascii("A"@),
                152,
                135,
            )
            &&& channel >= 3 ==> shows(
                drawn,
                if shown.regulation_mode == RegulationMode::Cv {
                    ascii("CV"@)
                } else {
                    ascii("CC"@)
                },
                107,
                135,
            )
        }),
{
    let shown = crate::view_projection::detail_shown(
        state.channels[channel as int],
        state.focus,
    );
    let cleared = crate::canvas::cleared(picture, Color::Black);
    let title = ascii("Channel "@) + decimal((channel + 1) as nat);
    let named = crate::canvas::written(cleared, title, 4, 1, Font::Large10x20, Color::White);
    lemma_written(cleared, title, 4, 1, Font::Large10x20, Color::White);
    let titled = crate::view_power::temperature_drawn(named, state);
    assert(grown(named, titled));
    let moded = if channel >= 3 {
        crate::view_detail::detail_mode_drawn(titled, shown)
    } else {
        titled
    };
    assert(grown(titled, moded));
    let mode = match shown.regulation_mode {
        RegulationMode::Cv => ascii("CV"@),
        RegulationMode::Cc => ascii("CC"@),
    };
    if channel >= 3 {
        assert(says(moded[moded.len() - 1], mode, 107, 135));
        assert(shows(moded, mode, 107, 135));
    }
    let volts = crate::view_detail::hero_drawn(
        moded,
        crate::view_detail::widened(shown.voltage_centivolts),
        5,
        ascii("V"@),
    );
    lemma_hero(moded, crate::view_detail::widened(shown.voltage_centivolts), 5, ascii("V"@));
    let amperes = crate::view_detail::hero_drawn(
        volts,
        crate::view_detail::widened(shown.current_centiamps),
        164,
        ascii("A"@),
    );
    lemma_hero(volts, crate::view_detail::widened(shown.current_centiamps), 164, ascii("A"@));
    let measured = crate::view_detail::power_drawn(amperes, shown.power_centiwatts);
    lemma_power_digits(
        crate::canvas::filled(amperes, 90, 88, 150, 35, Color::Black),
        crate::view_detail::hero_label(shown.power_centiwatts) + ascii(" W"@),
        100,
    );
    assert(grown(amperes, measured));
    let set = crate::view_detail::detail_setpoint_drawn(measured, shown);
    let voltage = fixed2(shown.setpoint_centivolts as nat) + ascii("V"@);
    assert(says(set[set.len() - 1], voltage, 12, 135));
    assert(grown(measured, set));
    let limited = crate::view_detail::detail_limit_drawn(set, shown);
    let limit = fixed2(shown.limit_centiamps as nat) + ascii("A"@);
    assert(says(limited[limited.len() - 1], limit, 152, 135));
    assert(grown(set, limited));
    let last = rendered(picture, state);
    assert(grown(limited, last));
    lemma_still(named, last, title, 4, 1);
    if channel >= 3 {
        lemma_still(moded, last, mode, 107, 135);
    }
    lemma_still(set, last, voltage, 12, 135);
    lemma_still(limited, last, limit, 152, 135);
}

/// What the input screen says of the input.
pub open spec fn input_words(state: AppState) -> Seq<u8> {
    if state.sink_fault != Fault::Clear {
        ascii("INPUT:"@) + match state.sink_fault {
            Fault::OverCurrent => ascii("OVERCURRENT"@),
            Fault::OverTemperature => ascii("OVERTEMP"@),
            Fault::Sensor => ascii("SENSOR"@),
            _ => ascii("HARDWARE"@),
        }
    } else if let Some(contract) = state.pd_contract {
        ascii("PD"@) + decimal(contract.source_position as nat) + ascii(" "@) + decimal(
            (contract.millivolts as int / 1_000) as nat,
        ) + ascii("."@) + decimal((contract.millivolts as int % 1_000 / 100) as nat) + ascii("V "@)
            + decimal((contract.operating_milliamps as int / 1_000) as nat) + ascii("."@)
            + decimal((contract.operating_milliamps as int % 1_000 / 100) as nat) + ascii("A"@)
    } else if let Some(error) = state.pd_error {
        ascii("PD ERR:"@) + match error {
            crate::pd::PdError::Bus => ascii("BUS"@),
            crate::pd::PdError::WrongDevice => ascii("DEVICE"@),
            crate::pd::PdError::Detached => ascii("DETACHED"@),
            crate::pd::PdError::Timeout => ascii("TIMEOUT"@),
            crate::pd::PdError::MalformedCapabilities => ascii("CAPS"@),
            crate::pd::PdError::NoSuitablePdo => ascii("NO PDO"@),
            crate::pd::PdError::ContractMismatch => ascii("CONTRACT"@),
        }
    } else if state.pd_negotiating {
        ascii("PD NEGOTIATING"@)
    } else {
        ascii("PD IDLE"@)
    }
}

/// The input's own screen shows its current limit in amperes, and what is the
/// matter with it.
pub proof fn the_input_screen_shows_limit_and_status(picture: Picture, state: AppState)
    requires
        state.screen == Screen::UsbPdInput,
    ensures
        ({
            let drawn = rendered(picture, state);
            &&& shows(
                drawn,
                fixed2((state.sink_current_limit_ma as int / 10) as nat) + ascii("A"@),
                118,
                135,
            )
            &&& shows(drawn, input_words(state), 216, 139)
        }),
{
    let shown = crate::view_projection::sink_shown(state);
    let titled = crate::view_power::temperature_drawn(
        crate::canvas::written(
            crate::canvas::cleared(picture, Color::Black),
            ascii("USB PD Input"@),
            4,
            1,
            Font::Large10x20,
            Color::White,
        ),
        state,
    );
    let measured = crate::view_detail::power_drawn(
        crate::view_detail::hero_drawn(
            crate::view_detail::hero_drawn(
                titled,
                crate::view_detail::widened(shown.voltage_centivolts),
                5,
                ascii("V"@),
            ),
            crate::view_detail::widened(shown.current_centiamps),
            164,
            ascii("A"@),
        ),
        shown.power_centiwatts,
    );
    let limited = crate::view_detail::sink_limit_frame_drawn(measured, shown);
    let limit = fixed2(shown.limit_centiamps as nat) + ascii("A"@);
    assert(says(limited[limited.len() - 1], limit, 118, 135));
    let last = rendered(picture, state);
    assert(last == crate::view_detail::sink_status_drawn(limited, shown.pd_status));
    assert(says(last[last.len() - 1], input_words(state), 216, 139));
    lemma_still(limited, last, limit, 118, 135);
}

/// What a row of the waveform screen says: the channel, the shape, the frequency
/// in hertz, the duty of a square, the levels in volts, and what a click does.
pub open spec fn waveform_words(state: AppState, row: u8) -> Seq<u8> {
    let awg = state.awg;
    if row == 0 {
        ascii("CH"@) + decimal((awg.channel + 1) as nat)
    } else if row == 1 {
        match awg.waveform {
            AwgWaveform::Square => ascii("SQUARE"@),
            AwgWaveform::Triangle => ascii("TRIANGLE"@),
            AwgWaveform::Ramp => ascii("RAMP"@),
            AwgWaveform::Sine => ascii("SINE"@),
        }
    } else if row == 2 {
        fixed1((awg.frequency_millihz as int / 100) as nat) + ascii(" Hz"@)
    } else if row == 3 {
        if awg.waveform == AwgWaveform::Square {
            decimal(awg.duty_percent as nat) + ascii("%"@)
        } else {
            ascii("--"@)
        }
    } else if row == 4 {
        fixed2((awg.low_mv as int / 10) as nat) + ascii(" V"@)
    } else if row == 5 {
        fixed2((awg.high_mv as int / 10) as nat) + ascii(" V"@)
    } else {
        match state.awg_status {
            AwgStatus::Stopped => ascii("START"@),
            AwgStatus::StartRequested => ascii("STARTING"@),
            AwgStatus::Starting => ascii("STARTING"@),
            AwgStatus::Running => ascii("STOP"@),
            AwgStatus::StopRequested => ascii("STOPPING"@),
            AwgStatus::Fault => ascii("FAULT"@),
        }
    }
}

proof fn lemma_waveform_value(picture: Picture, state: AppState, row: u8)
    requires
        row < 7,
    ensures
        grown(picture, crate::view_awg::value_drawn(picture, state, row)),
        shows(
            crate::view_awg::value_drawn(picture, state, row),
            waveform_words(state, row),
            106,
            30 + 17 * row,
        ),
{
    let drawn = crate::view_awg::value_drawn(picture, state, row);
    assert(says(drawn[drawn.len() - 1], waveform_words(state, row), 106, 30 + 17 * row));
}

proof fn lemma_waveform_row(picture: Picture, state: AppState, row: u8)
    requires
        row < 8,
    ensures
        grown(picture, crate::view_awg::row_drawn(picture, state, row)),
        row < 7 ==> shows(
            crate::view_awg::row_drawn(picture, state, row),
            waveform_words(state, row),
            106,
            30 + 17 * row,
        ),
        shows(
            crate::view_awg::row_drawn(picture, state, row),
            if state.menu_selection == row {
                ascii(">"@)
            } else {
                ascii(" "@)
            },
            8,
            30 + 17 * row,
        ),
{
    let y = 30 + row * 17;
    let mark = if state.menu_selection == row {
        ascii(">"@)
    } else {
        ascii(" "@)
    };
    let blank = crate::canvas::filled(
        picture,
        4,
        y - 1,
        190,
        16,
        crate::view_awg::row_color(state, row),
    );
    let marked = crate::canvas::written(blank, mark, 8, y, Font::Bold8x13, Color::Cyan);
    lemma_written(blank, mark, 8, y, Font::Bold8x13, Color::Cyan);
    let named = crate::canvas::written(
        marked,
        ascii(crate::view_awg::row_label(row)),
        27,
        y,
        Font::Bold8x13,
        Color::White,
    );
    let last = crate::view_awg::row_drawn(picture, state, row);
    if row < 7 {
        lemma_waveform_value(named, state, row);
    }
    assert(grown(named, last));
    assert(grown(marked, last));
    lemma_still(marked, last, mark, 8, y);
}

proof fn lemma_waveform_rows(picture: Picture, state: AppState, count: nat, row: u8)
    requires
        count <= 8,
        row < count,
    ensures
        row < 7 ==> shows(
            crate::view_awg::rows_drawn(picture, state, count),
            waveform_words(state, row),
            106,
            30 + 17 * row,
        ),
        shows(
            crate::view_awg::rows_drawn(picture, state, count),
            if state.menu_selection == row {
                ascii(">"@)
            } else {
                ascii(" "@)
            },
            8,
            30 + 17 * row,
        ),
    decreases count,
{
    let before = crate::view_awg::rows_drawn(picture, state, (count - 1) as nat);
    let after = crate::view_awg::rows_drawn(picture, state, count);
    lemma_waveform_row(before, state, (count - 1) as u8);
    if row < count - 1 {
        lemma_waveform_rows(picture, state, (count - 1) as nat, row);
        let mark = if state.menu_selection == row {
            ascii(">"@)
        } else {
            ascii(" "@)
        };
        lemma_still(before, after, mark, 8, 30 + 17 * row);
        lemma_still(before, after, waveform_words(state, row), 106, 30 + 17 * row);
    }
}

proof fn lemma_rows_updated(picture: Picture, before: AppState, after: AppState, count: nat, row: u8)
    requires
        count <= 8,
        row < count,
        row < 7,
        waveform_words(before, row) != waveform_words(after, row),
    ensures
        shows(
            crate::view_awg::rows_updated(picture, before, after, count),
            waveform_words(after, row),
            106,
            30 + 17 * row,
        ),
    decreases count,
{
    let at = (count - 1) as u8;
    let drawn = crate::view_awg::rows_updated(picture, before, after, (count - 1) as nat);
    let more = crate::view_awg::rows_updated(picture, before, after, count);
    lemma_waveform_row(drawn, after, at);
    if at < 7 {
        lemma_waveform_value(drawn, after, at);
    }
    assert(grown(drawn, more));
    if row < at {
        lemma_rows_updated(picture, before, after, (count - 1) as nat, row);
        lemma_still(drawn, more, waveform_words(after, row), 106, 30 + 17 * row);
    }
}

/// What changes on the waveform screen is painted again in its own row.
pub proof fn the_waveform_screen_follows_every_setting(
    picture: Picture,
    before: AppState,
    after: AppState,
    row: u8,
)
    requires
        before.screen == Screen::Awg,
        after.screen == Screen::Awg,
        row < 7,
        waveform_words(before, row) != waveform_words(after, row),
    ensures
        shows(
            transition_rendered(picture, before, after),
            waveform_words(after, row),
            106,
            30 + 17 * row,
        ),
{
    let headed = crate::view::header_updated(picture, before, after);
    lemma_rows_updated(headed, before, after, 8, row);
    let rows = crate::view_awg::rows_updated(headed, before, after, 8);
    let last = transition_rendered(picture, before, after);
    assert(grown(rows, last));
    lemma_still(rows, last, waveform_words(after, row), 106, 30 + 17 * row);
}

/// The waveform screen shows every setting in a row of its own, marks the row
/// that is selected, and shows the load: its channel, its current in thousandths
/// of an ampere and its power in hundredths of a watt.
pub proof fn the_waveform_screen_shows_every_setting(picture: Picture, state: AppState, row: u8)
    requires
        state.screen == Screen::Awg,
        row < 8,
    ensures
        ({
            let drawn = rendered(picture, state);
            let channel = if state.awg_status is Running {
                state.awg_channel()
            } else {
                state.awg.channel
            };
            &&& row < 7 ==> shows(drawn, waveform_words(state, row), 106, 30 + 17 * row)
            &&& shows(
                drawn,
                if state.menu_selection == row {
                    ascii(">"@)
                } else {
                    ascii(" "@)
                },
                8,
                30 + 17 * row,
            )
            &&& shows(
                drawn,
                ascii("CH"@) + decimal((channel + 1) as nat) + ascii(" LOAD"@),
                205,
                32,
            )
            &&& shows(
                drawn,
                if state.awg_load.valid {
                    fixed3(state.awg_load.milliamps_rms as nat) + ascii(" A"@)
                } else {
                    ascii("-.--- A"@)
                },
                205,
                65,
            )
            &&& shows(
                drawn,
                if state.awg_load.valid {
                    fixed2((state.awg_load.milliwatts_average as int / 10) as nat) + ascii(" W"@)
                } else {
                    ascii("--.-- W"@)
                },
                205,
                114,
            )
        }),
{
    let titled = crate::canvas::written(
        crate::canvas::cleared(picture, Color::Black),
        ascii("AWG"@),
        6,
        3,
        Font::Large10x20,
        Color::White,
    );
    let ruled = crate::canvas::filled(
        crate::canvas::filled(titled, 0, 27, 320, 1, Color::Rgb(8, 16, 16)),
        198,
        27,
        1,
        143,
        Color::Rgb(8, 16, 16),
    );
    let rows = crate::view_awg::rows_drawn(ruled, state, 8);
    lemma_waveform_rows(ruled, state, 8, row);
    let last = rendered(picture, state);
    assert(last == crate::view_awg::load_panel_drawn(rows, state));
    let at = rows.len() as int;
    let channel = crate::view_projection::load_channel(state);
    let heading = ascii("CH"@) + decimal((channel + 1) as nat) + ascii(" LOAD"@);
    assert(grown(rows, last));
    assert(says(last[at + 2], heading, 205, 32));
    assert(says(
        last[at + 6],
        if state.awg_load.valid {
            fixed3(state.awg_load.milliamps_rms as nat) + ascii(" A"@)
        } else {
            ascii("-.--- A"@)
        },
        205,
        65,
    ));
    assert(says(
        last[at + 8],
        if state.awg_load.valid {
            fixed2((state.awg_load.milliwatts_average / 10) as nat) + ascii(" W"@)
        } else {
            ascii("--.-- W"@)
        },
        205,
        114,
    ));
    let mark = if state.menu_selection == row {
        ascii(">"@)
    } else {
        ascii(" "@)
    };
    lemma_still(rows, last, mark, 8, 30 + 17 * row);
    if row < 7 {
        lemma_still(rows, last, waveform_words(state, row), 106, 30 + 17 * row);
    }
}

/// What a line of a menu says.
pub open spec fn menu_words(state: AppState, row: u8) -> Seq<u8> {
    let saved = |slot: int|
        if state.profile_present[slot] {
            ascii("SAVED"@)
        } else {
            ascii("EMPTY"@)
        };
    match state.screen {
        Screen::MainMenu => if row == 0 {
            ascii("DC Power"@)
        } else if row == 1 {
            ascii("AWG"@)
        } else if row == 2 {
            ascii("Settings"@)
        } else if row == 3 {
            ascii("System"@)
        } else {
            ascii("Help"@)
        },
        Screen::Settings => if row == 0 {
            ascii("Temperature       "@) + if state.temperature_unit == TemperatureUnit::Celsius {
                ascii("C"@)
            } else {
                ascii("F"@)
            }
        } else if row == 1 {
            ascii("Save Profile"@)
        } else if row == 2 {
            ascii("Load Profile"@)
        } else if row == 3 {
            ascii("Factory Defaults"@)
        } else {
            ascii("Back"@)
        },
        _ => if row == 0 {
            ascii("Slot 1          "@) + saved(0)
        } else if row == 1 {
            ascii("Slot 2          "@) + saved(1)
        } else if row == 2 {
            ascii("Slot 3          "@) + saved(2)
        } else {
            ascii("Back"@)
        },
    }
}

/// True of the screens that are a menu, with this many lines.
pub open spec fn menu_of(screen: Screen, lines: u8) -> bool {
    match screen {
        Screen::MainMenu => lines == 5,
        Screen::Settings => lines == 5,
        Screen::ProfileSave => lines == 4,
        Screen::ProfileLoad => lines == 4,
        _ => false,
    }
}

proof fn lemma_menu_words(state: AppState, row: u8)
    requires
        menu_of(state.screen, 5) && row < 5 || menu_of(state.screen, 4) && row < 4,
    ensures
        menu_words(state, row) == ascii(
            crate::view_menu::item_label(
                state,
                if state.screen == Screen::ProfileLoad {
                    Screen::ProfileSave
                } else {
                    state.screen
                },
                row,
            ),
        ),
{
    reveal_strlit("Temperature       ");
    reveal_strlit("Temperature       C");
    reveal_strlit("Temperature       F");
    reveal_strlit("C");
    reveal_strlit("F");
    reveal_strlit("Slot 1          ");
    reveal_strlit("Slot 2          ");
    reveal_strlit("Slot 3          ");
    reveal_strlit("SAVED");
    reveal_strlit("EMPTY");
    reveal_strlit("Slot 1          SAVED");
    reveal_strlit("Slot 1          EMPTY");
    reveal_strlit("Slot 2          SAVED");
    reveal_strlit("Slot 2          EMPTY");
    reveal_strlit("Slot 3          SAVED");
    reveal_strlit("Slot 3          EMPTY");
    assert(menu_words(state, row) =~= ascii(
        crate::view_menu::item_label(
            state,
            if state.screen == Screen::ProfileLoad {
                Screen::ProfileSave
            } else {
                state.screen
            },
            row,
        ),
    ));
}

proof fn lemma_item(picture: Picture, label: Seq<u8>, index: int, selected: bool)
    ensures
        ({
            let drawn = crate::view_menu::item_drawn(picture, label, index, selected);
            let y = 34 + 25 * index;
            &&& grown(picture, drawn)
            &&& shows(drawn, label, 30, y)
            &&& shows(
                drawn,
                if selected {
                    ascii(">"@)
                } else {
                    ascii(" "@)
                },
                10,
                y,
            )
        }),
{
    let drawn = crate::view_menu::item_drawn(picture, label, index, selected);
    let mark = if selected {
        ascii(">"@)
    } else {
        ascii(" "@)
    };
    assert(says(drawn[drawn.len() - 1], label, 30, 34 + 25 * index));
    assert(says(drawn[drawn.len() - 2], mark, 10, 34 + 25 * index));
}

proof fn lemma_items(picture: Picture, state: AppState, screen: Screen, count: nat, row: u8)
    requires
        count <= 5,
        row < count,
    ensures
        ({
            let drawn = crate::view_menu::items_drawn(picture, state, screen, count);
            let y = 34 + 25 * row;
            &&& shows(drawn, ascii(crate::view_menu::item_label(state, screen, row)), 30, y)
            &&& shows(
                drawn,
                if state.menu_selection == row {
                    ascii(">"@)
                } else {
                    ascii(" "@)
                },
                10,
                y,
            )
        }),
    decreases count,
{
    let before = crate::view_menu::items_drawn(picture, state, screen, (count - 1) as nat);
    let after = crate::view_menu::items_drawn(picture, state, screen, count);
    let label = ascii(crate::view_menu::item_label(state, screen, (count - 1) as u8));
    lemma_item(before, label, count - 1, state.menu_selection == count - 1);
    if row < count - 1 {
        lemma_items(picture, state, screen, (count - 1) as nat, row);
        let mark = if state.menu_selection == row {
            ascii(">"@)
        } else {
            ascii(" "@)
        };
        lemma_still(
            before,
            after,
            ascii(crate::view_menu::item_label(state, screen, row)),
            30,
            34 + 25 * row,
        );
        lemma_still(before, after, mark, 10, 34 + 25 * row);
    }
}

/// A menu shows every line that it has, in order, and marks the one that is
/// selected.
pub proof fn menus_show_every_line(picture: Picture, state: AppState, lines: u8, row: u8)
    requires
        menu_of(state.screen, lines),
        row < lines,
    ensures
        shows(rendered(picture, state), menu_words(state, row), 30, 34 + 25 * row),
        shows(
            rendered(picture, state),
            if state.menu_selection == row {
                ascii(">"@)
            } else {
                ascii(" "@)
            },
            10,
            34 + 25 * row,
        ),
{
    let screen = if state.screen == Screen::ProfileLoad {
        Screen::ProfileSave
    } else {
        state.screen
    };
    let title = match state.screen {
        Screen::MainMenu => ascii("BenchVolt"@),
        Screen::Settings => ascii("Settings"@),
        Screen::ProfileSave => ascii("Save Profile"@),
        _ => ascii("Load Profile"@),
    };
    let start = crate::canvas::filled(
        crate::canvas::written(
            crate::canvas::cleared(picture, Color::Black),
            title,
            6,
            3,
            Font::Large10x20,
            Color::White,
        ),
        0,
        27,
        320,
        1,
        Color::Rgb(8, 16, 16),
    );
    lemma_items(start, state, screen, lines as nat, row);
    lemma_menu_words(state, row);
    let drawn = crate::view_menu::items_drawn(start, state, screen, lines as nat);
    assert(drawn == crate::view_menu::menu_drawn(picture, title, state, screen, lines as nat));
    let last = rendered(picture, state);
    assert(grown(drawn, last));
    let mark = if state.menu_selection == row {
        ascii(">"@)
    } else {
        ascii(" "@)
    };
    lemma_still(drawn, last, menu_words(state, row), 30, 34 + 25 * row);
    lemma_still(drawn, last, mark, 10, 34 + 25 * row);
}

/// Moving through the main menu marks the line that is selected now, and takes
/// the mark from the one before.
pub proof fn the_mark_follows_the_selection(picture: Picture, before: AppState, after: AppState)
    requires
        before.screen == Screen::MainMenu,
        after.screen == Screen::MainMenu,
        before.menu_selection < 5,
        after.menu_selection < 5,
        before.menu_selection != after.menu_selection,
    ensures
        shows(
            transition_rendered(picture, before, after),
            ascii(">"@),
            10,
            34 + 25 * after.menu_selection,
        ),
        shows(
            transition_rendered(picture, before, after),
            ascii(" "@),
            10,
            34 + 25 * before.menu_selection,
        ),
{
    let headed = crate::view::header_updated(picture, before, after);
    let left = ascii(
        crate::view_menu::item_label(after, Screen::MainMenu, before.menu_selection),
    );
    let chosen = ascii(
        crate::view_menu::item_label(after, Screen::MainMenu, after.menu_selection),
    );
    let first = crate::view_menu::item_drawn(headed, left, before.menu_selection as int, false);
    lemma_item(headed, left, before.menu_selection as int, false);
    lemma_item(first, chosen, after.menu_selection as int, true);
    let last = transition_rendered(picture, before, after);
    assert(last == crate::view_menu::item_drawn(
        first,
        chosen,
        after.menu_selection as int,
        true,
    ));
    lemma_still(first, last, ascii(" "@), 10, 34 + 25 * before.menu_selection);
}

} // verus!
