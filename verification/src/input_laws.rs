//! What the encoder and the button mean, in detents and milliseconds; and what
//! the averages of measurements are.

use crate::app::{Action, AppState, ControlFocus, LoadMeasurement, Measurement, Screen};
use crate::encoder_queue::drained;
use crate::input_policy::{
    byte_clamped, multiplier, turn_action, ButtonTracker, EncoderAccumulator, EncoderEvent,
};
use crate::load::{amp_sum, average_of, measures, power_sum, square_sum, volt_sum};
use vstd::prelude::*;

verus! {

/// A turn edits what is edited, by accelerated steps; switches the output that
/// has the focus; selects on a menu, by single detents; and else changes the
/// screen, in its own direction.
pub proof fn turns_go_where_the_focus_is(state: AppState, direction: i8, accelerated: i8)
    ensures
        ({
            let action = turn_action(state, direction, accelerated);
            let power = state.screen is Overview || state.screen is Channel || state.screen
                is UsbPdInput;
            &&& direction == 0 ==> action is None
            &&& direction != 0 ==> {
                &&& state.focus == ControlFocus::Voltage || state.focus
                    == ControlFocus::CurrentLimit || state.focus == ControlFocus::RegulationMode
                    ==> action == Some(Action::AdjustFocused(accelerated))
                &&& state.focus matches ControlFocus::OverviewOutput(channel) ==> action == Some(
                    Action::ToggleOutputRequested { channel },
                )
                &&& state.focus == ControlFocus::Output ==> (state.screen matches Screen::Channel(
                    channel,
                ) ==> action == Some(Action::ToggleOutputRequested { channel }))
                &&& state.focus == ControlFocus::Output && !(state.screen is Channel) ==> action
                    is None
                &&& state.focus == ControlFocus::Unfocused ==> {
                    &&& state.screen == Screen::Awg && state.awg_editing ==> action == Some(
                        Action::AdjustAwg(accelerated),
                    )
                    &&& !power && !(state.screen == Screen::Awg && state.awg_editing) ==> action
                        == Some(Action::NavigateMenu(direction))
                    &&& power && direction > 0 ==> action == Some(Action::NextScreen)
                    &&& power && direction < 0 ==> action == Some(Action::PreviousScreen)
                }
            }
        }),
{
}

/// The milliseconds from one reading of the clock to another.
pub open spec fn passed(then: u16, now: u16) -> int {
    (now - then) % 0x1_0000
}

/// A press counts where the button was up for 50 ms since its last release; a
/// bounce before that is none. Nothing is done yet.
pub proof fn presses_are_debounced(button: ButtonTracker, tick: u16)
    requires
        button.high,
        button.pressed_at is None,
    ensures
        ({
            let (next, action) = button.after(tick, false);
            &&& action is None
            &&& !next.high
            &&& next.last_press_tick == button.last_press_tick
            &&& next.pressed_at == if passed(button.last_press_tick, tick) >= 50 {
                Some(tick)
            } else {
                None
            }
            &&& next.pressed_at is Some ==> !next.overview_hold_fired
        }),
{
}

/// A release after 30 ms is a click, after half a second it leads to the main
/// menu, and before 30 ms it is nothing; the press is over.
pub proof fn releases_are_clicks(button: ButtonTracker, pressed_at: u16, tick: u16)
    requires
        !button.high,
        button.pressed_at == Some(pressed_at),
    ensures
        ({
            let (next, action) = button.after(tick, true);
            let held = passed(pressed_at, tick);
            &&& action == if held >= 500 {
                Some(Action::GoMainMenu)
            } else if held >= 30 {
                Some(Action::NextControl)
            } else {
                None
            }
            &&& next.high
            &&& next.pressed_at is None
            &&& next.last_press_tick == tick
        }),
{
}

/// A button that is held leads to the main menu once, after half a second, and
/// to a reboot once, after three seconds.
pub proof fn holds_are_seen_while_they_last(button: ButtonTracker, pressed_at: u16, tick: u16)
    requires
        !button.high,
        button.pressed_at == Some(pressed_at),
    ensures
        ({
            let (next, action) = button.after(tick, false);
            let held = passed(pressed_at, tick);
            &&& action == if held >= 3_000 {
                Some(Action::RequestReboot)
            } else if held >= 500 && !button.overview_hold_fired {
                Some(Action::GoMainMenu)
            } else {
                None
            }
            &&& !next.high
            &&& held >= 3_000 ==> next.pressed_at is None
            &&& held < 3_000 ==> next.pressed_at == Some(pressed_at)
            &&& held >= 500 && held < 3_000 ==> next.overview_hold_fired
            &&& held < 500 ==> next.overview_hold_fired == button.overview_hold_fired
        }),
{
}

/// Without a press that counts, the button does nothing.
pub proof fn bounces_do_nothing(button: ButtonTracker, tick: u16)
    requires
        button.pressed_at is None,
    ensures
        !button.high ==> button.after(tick, false).1 is None && button.after(tick, false).0.pressed_at
            is None,
        button.after(tick, true).1 is None,
        button.after(tick, true).0.high,
        button.after(tick, true).0.last_press_tick == button.last_press_tick,
{
}

/// The steps of a detent grow with the detents before it in the same direction,
/// each within 80 ms of the last: one, then two for two detents, four for two,
/// eight for three, and sixteen from the ninth on. A pause or a turn back starts
/// over.
pub proof fn fast_turns_take_larger_steps(
    accumulator: EncoderAccumulator,
    direction: i8,
    tick: u16,
)
    ensures
        ({
            let next = accumulator.after(direction, tick);
            let fast = direction == accumulator.last_direction && passed(
                accumulator.last_tick,
                tick,
            ) <= 80;
            &&& next.last_tick == tick
            &&& next.last_direction == direction
            &&& !fast ==> next.velocity == 1
            &&& fast && accumulator.velocity < 16 ==> next.velocity == accumulator.velocity + 1
            &&& fast && accumulator.velocity >= 16 ==> next.velocity == 16
        }),
        multiplier(1) == 1,
        multiplier(2) == 2 && multiplier(3) == 2,
        multiplier(4) == 4 && multiplier(5) == 4,
        multiplier(6) == 8 && multiplier(7) == 8 && multiplier(8) == 8,
        forall|velocity: u8| velocity >= 9 ==> #[trigger] multiplier(velocity) == 16,
{
}

/// The sum of the detents that wait.
pub open spec fn detents(events: Seq<EncoderEvent>) -> int
    decreases events.len(),
{
    if events.len() == 0 {
        0
    } else {
        events[0].direction + detents(events.skip(1))
    }
}

/// Waiting detents add up; the accelerated sum of detents in one direction is at
/// least as large, and sixteen times as large at most.
pub proof fn detents_add_up(accumulator: EncoderAccumulator, events: Seq<EncoderEvent>)
    requires
        events.len() <= 16,
        forall|i: int| 0 <= i < events.len() ==> -1 <= (#[trigger] events[i]).direction <= 1,
    ensures
        drained(accumulator, 0, 0, events).1 == detents(events),
        (forall|i: int| 0 <= i < events.len() ==> (#[trigger] events[i]).direction == 1)
            ==> events.len() <= drained(accumulator, 0, 0, events).2 <= 16 * events.len(),
        (forall|i: int| 0 <= i < events.len() ==> (#[trigger] events[i]).direction == -1)
            ==> -16 * events.len() <= drained(accumulator, 0, 0, events).2 <= -(
        events.len() as int),
{
    lemma_detents(accumulator, 0, 0, events, 0);
}

proof fn lemma_detents(
    accumulator: EncoderAccumulator,
    raw: int,
    accelerated: int,
    events: Seq<EncoderEvent>,
    taken: int,
)
    requires
        0 <= taken,
        taken + events.len() <= 16,
        -taken <= raw <= taken,
        -16 * taken <= accelerated <= 16 * taken,
        forall|i: int| 0 <= i < events.len() ==> -1 <= (#[trigger] events[i]).direction <= 1,
    ensures
        drained(accumulator, raw, accelerated, events).1 == raw + detents(events),
        -(events.len() as int) <= detents(events) <= events.len(),
        (forall|i: int| 0 <= i < events.len() ==> (#[trigger] events[i]).direction == 1)
            ==> accelerated + events.len() <= drained(accumulator, raw, accelerated, events).2
            <= accelerated + 16 * events.len(),
        (forall|i: int| 0 <= i < events.len() ==> (#[trigger] events[i]).direction == -1)
            ==> accelerated - 16 * events.len() <= drained(accumulator, raw, accelerated, events).2
            <= accelerated - events.len(),
    decreases events.len(),
{
    if events.len() > 0 {
        let next = accumulator.after(events[0].direction, events[0].tick);
        let factor = multiplier(next.velocity);
        let rest = events.skip(1);
        let step = events[0].direction * factor;
        assert(-16 <= step <= 16 && (events[0].direction == 1 ==> step == factor) && (
        events[0].direction == -1 ==> step == -factor)) by (nonlinear_arith)
            requires
                step == events[0].direction * factor,
                -1 <= events[0].direction <= 1,
                1 <= factor <= 16,
        ;
        assert forall|i: int| 0 <= i < rest.len() implies (#[trigger] rest[i]) == events[i
            + 1] by {}
        lemma_detents(next, raw + events[0].direction, accelerated + step, rest, taken + 1);
        if forall|i: int| 0 <= i < events.len() ==> (#[trigger] events[i]).direction == 1 {
            assert forall|i: int| 0 <= i < rest.len() implies (#[trigger] rest[i]).direction
                == 1 by {
                assert(events[i + 1].direction == 1);
            }
        }
        if forall|i: int| 0 <= i < events.len() ==> (#[trigger] events[i]).direction == -1 {
            assert forall|i: int| 0 <= i < rest.len() implies (#[trigger] rest[i]).direction
                == -1 by {
                assert(events[i + 1].direction == -1);
            }
        }
    }
}

/// What an action carries of a sum: the sum itself, from -128 to 127, and the
/// nearer end beyond.
pub proof fn actions_carry_a_byte(sum: int)
    ensures
        -128 <= byte_clamped(sum) <= 127,
        -128 <= sum <= 127 ==> byte_clamped(sum) == sum,
        sum > 127 ==> byte_clamped(sum) == 127,
        sum < -128 ==> byte_clamped(sum) == -128,
{
}

/// The sums behind the averages add up sample by sample.
pub proof fn sums_add_up(samples: Seq<Measurement>, more: Measurement)
    ensures
        volt_sum(Seq::empty()) == 0 && amp_sum(Seq::empty()) == 0,
        square_sum(Seq::empty()) == 0 && power_sum(Seq::empty()) == 0,
        volt_sum(samples.push(more)) == volt_sum(samples) + more.millivolts,
        amp_sum(samples.push(more)) == amp_sum(samples) + more.milliamps,
        square_sum(samples.push(more)) == square_sum(samples) + more.milliamps * more.milliamps,
        power_sum(samples.push(more)) == power_sum(samples) + more.millivolts * more.milliamps,
{
    assert(samples.push(more).drop_last() =~= samples);
}

proof fn lemma_sums_fit(samples: Seq<Measurement>)
    ensures
        volt_sum(samples) <= samples.len() * 0xffff,
        amp_sum(samples) <= samples.len() * 0xffff,
    decreases samples.len(),
{
    if samples.len() > 0 {
        lemma_sums_fit(samples.drop_last());
    }
}

/// What is shown of a channel is the mean of its samples, rounded down: as many
/// times the mean as there are samples is their sum, up to a unit for each.
/// Without a sample nothing is shown.
pub proof fn averages_are_means(samples: Seq<Measurement>)
    ensures
        ({
            let mean = average_of(samples);
            let count = samples.len();
            &&& mean.valid <==> count > 0
            &&& count > 0 ==> {
                &&& mean.millivolts * count <= volt_sum(samples) < (mean.millivolts + 1) * count
                &&& mean.milliamps * count <= amp_sum(samples) < (mean.milliamps + 1) * count
            }
        }),
{
    let count = samples.len() as int;
    if count > 0 {
        lemma_sums_fit(samples);
        lemma_mean(volt_sum(samples) as int, count);
        lemma_mean(amp_sum(samples) as int, count);
    }
}

proof fn lemma_mean(sum: int, count: int)
    requires
        0 <= sum <= count * 0xffff,
        count > 0,
    ensures
        0 <= sum / count <= 0xffff,
        (sum / count) * count <= sum < (sum / count + 1) * count,
{
    let mean = sum / count;
    vstd::arithmetic::div_mod::lemma_fundamental_div_mod(sum, count);
    vstd::arithmetic::div_mod::lemma_mod_bound(sum, count);
    assert(0 <= mean <= 0xffff && mean * count <= sum < (mean + 1) * count) by (nonlinear_arith)
        requires
            sum == count * mean + sum % count,
            0 <= sum % count < count,
            0 <= sum <= count * 0xffff,
            count > 0,
    ;
}

/// What a steady load draws is measured as it is: its current is the effective
/// one, and its power the product of voltage and current, in milliwatts.
pub proof fn steady_loads_measure_as_they_are(
    sample: Measurement,
    count: nat,
    load: LoadMeasurement,
)
    requires
        count > 0,
        measures(crate::load::repeated(sample, count), load),
    ensures
        load.valid,
        load.milliamps_rms == sample.milliamps,
        load.milliwatts_average == sample.millivolts * sample.milliamps / 1_000,
{
    let samples = crate::load::repeated(sample, count);
    lemma_equal_products(sample, count);
    let square = sample.milliamps * sample.milliamps;
    let power = sample.millivolts * sample.milliamps;
    assert(square >= 0 && power >= 0) by (nonlinear_arith)
        requires
            square == sample.milliamps * sample.milliamps,
            power == sample.millivolts * sample.milliamps,
            sample.milliamps >= 0,
            sample.millivolts >= 0,
    ;
    vstd::arithmetic::div_mod::lemma_div_multiples_vanish(square, count as int);
    vstd::arithmetic::div_mod::lemma_div_multiples_vanish(power, count as int);
    assert(square_sum(samples) / samples.len() == square);
    assert(power_sum(samples) / samples.len() == power);
    let root = load.milliamps_rms as int;
    let current = sample.milliamps as int;
    assert(root == current) by (nonlinear_arith)
        requires
            root * root <= current * current,
            current * current < (root + 1) * (root + 1),
            root >= 0,
            current >= 0,
    ;
}

proof fn lemma_equal_products(sample: Measurement, count: nat)
    ensures
        square_sum(crate::load::repeated(sample, count)) == count * (sample.milliamps
            * sample.milliamps),
        power_sum(crate::load::repeated(sample, count)) == count * (sample.millivolts
            * sample.milliamps),
    decreases count,
{
    let all = crate::load::repeated(sample, count);
    let square = sample.milliamps * sample.milliamps;
    let power = sample.millivolts * sample.milliamps;
    if count == 0 {
        assert(0 * square == 0 && 0 * power == 0) by (nonlinear_arith);
    } else {
        lemma_equal_products(sample, (count - 1) as nat);
        assert(all.drop_last() =~= crate::load::repeated(sample, (count - 1) as nat));
        assert(all.last() == sample);
        assert(count * square == (count - 1) * square + square && count * power == (count - 1)
            * power + power) by (nonlinear_arith);
    }
}

/// The current of a load is its effective one: its square is the mean of the
/// squares, up to rounding down. Its power is the mean of the products, in
/// milliwatts, rounded down. Without a sample there is no load.
pub proof fn loads_are_measured_by_their_effect(samples: Seq<Measurement>, load: LoadMeasurement)
    requires
        measures(samples, load),
    ensures
        load.valid <==> samples.len() > 0,
        samples.len() > 0 ==> {
            let count = samples.len();
            let root = load.milliamps_rms;
            let watts = load.milliwatts_average;
            &&& root * root * count <= square_sum(samples) < (root + 1) * (root + 1) * count
            &&& watts * 1_000 * count <= power_sum(samples) < (watts + 1) * 1_000 * count
        },
{
    if samples.len() > 0 {
        let count = samples.len() as int;
        let root = load.milliamps_rms as int;
        let squares = square_sum(samples) as int;
        let mean = squares / count;
        vstd::arithmetic::div_mod::lemma_fundamental_div_mod(squares, count);
        vstd::arithmetic::div_mod::lemma_mod_bound(squares, count);
        let low = root * root;
        let high = (root + 1) * (root + 1);
        assert(low * count <= squares < high * count) by (nonlinear_arith)
            requires
                squares == count * mean + squares % count,
                0 <= squares % count < count,
                low <= mean < high,
                count > 0,
        ;
        let powers = power_sum(samples) as int;
        let level = powers / count;
        let watts = load.milliwatts_average as int;
        vstd::arithmetic::div_mod::lemma_fundamental_div_mod(powers, count);
        vstd::arithmetic::div_mod::lemma_mod_bound(powers, count);
        assert(watts == level / 1_000);
        assert(watts * 1_000 * count <= powers < (watts + 1) * 1_000 * count) by (nonlinear_arith)
            requires
                powers == count * level + powers % count,
                0 <= powers % count < count,
                watts * 1_000 <= level < watts * 1_000 + 1_000,
                count > 0,
        ;
    }
}

} // verus!
