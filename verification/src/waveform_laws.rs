//! What the waveforms are: the shapes as they leave the generator, the time that
//! a cycle takes, and the order in which an uploaded waveform is played.

use crate::app::{AwgConfig, AwgSource, AwgStatus, AwgWaveform};
use crate::arb::{Buffer, Start, Tick};
use crate::awg::{level, playable, sample, Scheduler, SINE};
use crate::waveform::{Directive, Service};
use vstd::prelude::*;

verus! {

/// A ramp is linear in the phase: its level is the phase, in units of a 65536th
/// of a cycle.
pub proof fn ramps_are_linear(config: AwgConfig, phase: u32)
    requires
        config.waveform == AwgWaveform::Ramp,
    ensures
        level(config, phase) * 0x1_0000 <= phase < (level(config, phase) + 1) * 0x1_0000,
{
}

/// A triangle rises at twice the slope of a ramp for half a cycle, and falls as
/// it rose.
pub proof fn triangles_rise_and_fall_alike(config: AwgConfig, phase: u32)
    requires
        config.waveform == AwgWaveform::Triangle,
    ensures
        phase < 0x8000_0000 ==> level(config, phase) * 0x8000 <= phase < (level(config, phase) + 2)
            * 0x8000,
        level(config, phase) == level(config, (0xffff_ffff - phase) as u32),
{
}

/// A square wave is low first, and at its top for the duty share that ends the
/// cycle; it takes no other level.
pub proof fn squares_are_high_for_their_duty(config: AwgConfig, phase: u32)
    requires
        config.waveform == AwgWaveform::Square,
        playable(config),
    ensures
        level(config, phase) == 0 || level(config, phase) == 0xffff,
        level(config, phase) == 0xffff <==> (phase + 1) * 100 > (100 - config.duty_percent)
            * 0x1_0000_0000,
{
}

/// A sine is level at the middle, the top, the middle and the bottom at the
/// quarters of its cycle.
pub proof fn sines_have_their_landmarks(config: AwgConfig)
    requires
        config.waveform == AwgWaveform::Sine,
    ensures
        level(config, 0) == 0x8000,
        level(config, 0x4000_0000) == 0xffff,
        level(config, 0x8000_0000) == 0x8000,
        level(config, 0xc000_0000) == 0,
{
    lemma_sine_point(config, 0);
    lemma_sine_point(config, 8);
    lemma_sine_point(config, 16);
    lemma_sine_point(config, 24);
}

/// The points of a sine, 32 to the cycle.
pub open spec fn sine_point(config: AwgConfig, index: int) -> int {
    level(config, (index % 32 * 0x800_0000) as u32)
}

proof fn lemma_sine_point(config: AwgConfig, index: int)
    requires
        config.waveform == AwgWaveform::Sine,
        0 <= index,
    ensures
        sine_point(config, index) == SINE[index % 32] as int,
{
    let phase = (index % 32 * 0x800_0000) as u32;
    let start = SINE[index % 32] as int;
    assert(phase as int / 0x800_0000 == index % 32);
    assert(phase as int / 0x800 % 0x1_0000 == 0);
}

/// A sine is an undamped oscillation: with the middle as zero, each point and
/// the one before it give the next one by the same rule, `next = 2 cos(360/32)
/// * this - previous`, within a hundredth of the range, and within three units
/// near the middle; and the two halves of the cycle mirror each other.
pub proof fn sines_oscillate(config: AwgConfig, index: int)
    requires
        config.waveform == AwgWaveform::Sine,
        0 <= index < 32,
    ensures
        ({
            let previous = 2 * sine_point(config, index + 31) - 0xffff;
            let this = 2 * sine_point(config, index) - 0xffff;
            let next = 2 * sine_point(config, index + 1) - 0xffff;
            let off = (previous + next) * 1_000_000 - 1_961_571 * this;
            &&& -900 * 1_000_000 <= off <= 900 * 1_000_000
            &&& (-36_500 <= this <= 36_500) ==> -3 * 1_000_000 <= off <= 3 * 1_000_000
        }),
        index <= 16 ==> sine_point(config, index) == sine_point(config, 16 - index),
        0xffff <= sine_point(config, index) + sine_point(config, index + 16) <= 0x1_0000,
        index < 8 ==> sine_point(config, index) < sine_point(config, index + 1),
{
    lemma_sine_point(config, index);
    lemma_sine_point(config, index + 1);
    lemma_sine_point(config, index + 31);
    lemma_sine_point(config, index + 16);
    if index <= 16 {
        lemma_sine_point(config, 16 - index);
    }
    assert(index == 0 || index == 1 || index == 2 || index == 3 || index == 4 || index == 5 || index == 6 || index == 7 || index == 8 || index == 9 || index == 10 || index == 11 || index == 12 || index == 13 || index == 14 || index == 15 || index == 16 || index == 17 || index == 18 || index == 19 || index == 20 || index == 21 || index == 22 || index == 23 || index == 24 || index == 25 || index == 26 || index == 27 || index == 28 || index == 29 || index == 30 || index == 31);
}

/// Between two of its points a sine is the straight line from one to the other,
/// within two units.
pub proof fn sines_are_interpolated(config: AwgConfig, phase: u32)
    requires
        config.waveform == AwgWaveform::Sine,
    ensures
        ({
            let index = phase as int / 0x800_0000;
            let part = phase as int % 0x800_0000;
            let from = sine_point(config, index);
            let to = sine_point(config, index + 1);
            let off = (level(config, phase) - from) * 0x800_0000 - (to - from) * part;
            &&& -0x1000_0000 < off < 0x1000_0000
            &&& from <= level(config, phase) <= to || to <= level(config, phase) <= from
        }),
{
    let index = phase as int / 0x800_0000;
    let part = phase as int % 0x800_0000;
    lemma_sine_point(config, index);
    lemma_sine_point(config, index + 1);
    let from = sine_point(config, index);
    let to = sine_point(config, index + 1);
    let span = to - from;
    let fraction = phase as int / 0x800 % 0x1_0000;
    let product = span * fraction;
    assert(fraction == part / 0x800);
    assert(level(config, phase) == from + product / 0x1_0000);
    let rest = part - fraction * 0x800;
    assert(0 <= rest < 0x800);
    assert(span * part == product * 0x800 + span * rest) by (nonlinear_arith)
        requires
            part == fraction * 0x800 + rest,
            product == span * fraction,
    ;
    assert(-0x800_0000 < span * rest < 0x800_0000) by (nonlinear_arith)
        requires
            -0xffff <= span <= 0xffff,
            0 <= rest < 0x800,
    ;
    if span >= 0 {
        assert(0 <= product <= span * 0x1_0000) by (nonlinear_arith)
            requires
                product == span * fraction,
                0 <= fraction <= 0x1_0000,
                span >= 0,
        ;
    } else {
        assert(span * 0x1_0000 <= product <= 0) by (nonlinear_arith)
            requires
                product == span * fraction,
                0 <= fraction <= 0x1_0000,
                span < 0,
        ;
    }
}

/// A sample divides the way from the low to the high voltage as the level
/// divides its own range, rounded down.
pub proof fn samples_are_proportional(config: AwgConfig, phase: u32)
    requires
        playable(config),
    ensures
        (sample(config, phase) - config.low_mv) * 0xffff <= (config.high_mv - config.low_mv)
            * level(config, phase) < (sample(config, phase) - config.low_mv + 1) * 0xffff,
        level(config, phase) == 0 ==> sample(config, phase) == config.low_mv,
        level(config, phase) == 0xffff ==> sample(config, phase) == config.high_mv,
{
}

/// `cycles` whole cycles, in the parts of a phase unit that a tick at one
/// millihertz makes.
pub open spec fn whole_cycles(cycles: int) -> int {
    cycles * (2_000_000 * 0x1_0000_0000)
}

/// The phase keeps the time exactly. There are 2000 ticks to the second, and a
/// service moves the phase by the share of a cycle that went by since the last
/// one, whole cycles apart; what does not fill a unit of the phase is carried
/// over. The sample is the one at that phase.
pub proof fn the_phase_keeps_the_time(scheduler: Scheduler, now: u16, config: AwgConfig)
    requires
        scheduler.active,
        scheduler.phase_remainder < 2_000_000,
        (now - scheduler.next_update_tick) % 0x1_0000 < 0x8000,
    ensures
        ({
            let (next, emitted) = scheduler.after(now, config);
            let elapsed = (now - scheduler.last_phase_tick) % 0x1_0000;
            let before = scheduler.phase * 2_000_000 + scheduler.phase_remainder;
            let after = next.phase * 2_000_000 + next.phase_remainder;
            &&& exists|cycles: int|
                before + config.frequency_millihz * elapsed * 0x1_0000_0000 == after
                    + #[trigger] whole_cycles(cycles)
            &&& next.phase_remainder < 2_000_000
            &&& next.last_phase_tick == now
            &&& next.active
            &&& emitted == Some(sample(config, next.phase) as u16)
        }),
{
    crate::awg::phase_never_drifts(scheduler, now, config.frequency_millihz);
    let next = scheduler.advanced(now, config.frequency_millihz);
    let cycle = crate::awg::PHASE_DENOMINATOR as int * 0x1_0000_0000;
    let before = scheduler.phase * crate::awg::PHASE_DENOMINATOR as int
        + scheduler.phase_remainder;
    let after = next.phase * crate::awg::PHASE_DENOMINATOR as int + next.phase_remainder;
    let cycles = choose|cycles: int|
        before + config.frequency_millihz * scheduler.elapsed(now) * 0x1_0000_0000 == after
            + #[trigger] (cycles * cycle);
    assert(before + config.frequency_millihz * scheduler.elapsed(now) * 0x1_0000_0000 == after
        + whole_cycles(cycles));
}

/// A waveform is back where it was after a whole number of its periods.
pub proof fn waveforms_repeat_after_a_period(
    scheduler: Scheduler,
    now: u16,
    config: AwgConfig,
    periods: int,
)
    requires
        scheduler.active,
        scheduler.phase_remainder < 2_000_000,
        (now - scheduler.next_update_tick) % 0x1_0000 < 0x8000,
        config.frequency_millihz * ((now - scheduler.last_phase_tick) % 0x1_0000) == periods
            * 2_000_000,
    ensures
        scheduler.after(now, config).0.phase == scheduler.phase,
        scheduler.after(now, config).1 == Some(sample(config, scheduler.phase) as u16),
{
    the_phase_keeps_the_time(scheduler, now, config);
    let next = scheduler.after(now, config).0;
    let elapsed = (now - scheduler.last_phase_tick) % 0x1_0000;
    let cycle = 2_000_000 * 0x1_0000_0000int;
    let before = scheduler.phase * 2_000_000 + scheduler.phase_remainder;
    let after = next.phase * 2_000_000 + next.phase_remainder;
    let cycles = choose|cycles: int|
        before + config.frequency_millihz * elapsed * 0x1_0000_0000 == after
            + #[trigger] whole_cycles(cycles);
    let apart = cycles - periods;
    assert(before - after == apart * cycle) by (nonlinear_arith)
        requires
            before + periods * 2_000_000 * 0x1_0000_0000 == after + cycles * cycle,
            apart == cycles - periods,
            cycle == 2_000_000 * 0x1_0000_0000,
    ;
    assert(apart == 0) by (nonlinear_arith)
        requires
            before - after == apart * cycle,
            -cycle < before - after < cycle,
            cycle > 0,
    ;
}

/// A waveform starts with its low voltage at once, and then gives one sample for
/// every tick in which it is serviced, and none twice in a tick.
pub proof fn waveforms_give_a_sample_per_tick(
    scheduler: Scheduler,
    now: u16,
    config: AwgConfig,
    wait: int,
)
    requires
        !scheduler.active || (now - scheduler.next_update_tick) % 0x1_0000 < 0x8000,
        0 <= wait <= 0x8000,
    ensures
        ({
            let (next, emitted) = scheduler.after(now, config);
            let later = ((now + wait) % 0x1_0000) as u16;
            &&& emitted is Some
            &&& !scheduler.active ==> emitted == Some(config.low_mv)
            &&& next.after(later, config).1 is Some <==> wait > 0
            &&& wait == 0 ==> next.after(later, config).0 == next
        }),
{
}

/// A ramp that was just started has risen in proportion to the time, until its
/// period is over: `k` ticks of 2000 to the second after the start it is at
/// `k * f / 2000` of the way up, `f` in hertz, within a unit of the phase and a
/// millivolt.
pub proof fn ramps_rise_with_the_time(
    scheduler: Scheduler,
    first: u16,
    ticks: int,
    config: AwgConfig,
)
    requires
        !scheduler.active,
        playable(config),
        config.waveform == AwgWaveform::Ramp,
        1 <= ticks <= 0x8000,
        config.frequency_millihz * ticks < 2_000_000,
    ensures
        ({
            let later = ((first + ticks) % 0x1_0000) as u16;
            let emitted = scheduler.after(first, config).0.after(later, config).1;
            let risen = emitted->Some_0 - config.low_mv;
            let span = config.high_mv - config.low_mv;
            let share = config.frequency_millihz * ticks * 0x1_0000;
            &&& emitted is Some
            &&& risen * 0xffff * 2_000_000 <= span * share
            &&& span * share < (risen + 1) * 0xffff * 2_000_000 + span * 2_000_000
        }),
{
    let started = scheduler.after(first, config).0;
    let later = ((first + ticks) % 0x1_0000) as u16;
    let product = config.frequency_millihz * ticks;
    the_phase_keeps_the_time(started, later, config);
    let next = started.after(later, config).0;
    assert((later - started.last_phase_tick) % 0x1_0000 == ticks % 0x1_0000);
    assert(0 <= product) by (nonlinear_arith)
        requires
            product == config.frequency_millihz * ticks,
            ticks >= 1,
            config.frequency_millihz >= 0,
    ;
    let cycle = 2_000_000 * 0x1_0000_0000int;
    let after = next.phase * 2_000_000 + next.phase_remainder;
    let cycles = choose|cycles: int|
        0 + config.frequency_millihz * ticks * 0x1_0000_0000 == after + #[trigger] whole_cycles(
            cycles,
        );
    assert(cycles == 0) by (nonlinear_arith)
        requires
            product * 0x1_0000_0000 - after == cycles * cycle,
            -cycle < product * 0x1_0000_0000 - after < cycle,
            cycle > 0,
    ;
    let x = level(config, next.phase);
    ramps_are_linear(config, next.phase);
    samples_are_proportional(config, next.phase);
    crate::awg::samples_stay_between_the_levels(config, next.phase);
    let risen = sample(config, next.phase) - config.low_mv;
    let span = config.high_mv - config.low_mv;
    let share = product * 0x1_0000;
    assert(x * 2_000_000 <= share < (x + 1) * 2_000_000);
    assert(span * (x * 2_000_000) <= span * share) by (nonlinear_arith)
        requires
            x * 2_000_000 <= share,
            span >= 0,
    ;
    assert(span * share <= span * ((x + 1) * 2_000_000)) by (nonlinear_arith)
        requires
            share < (x + 1) * 2_000_000,
            span >= 0,
    ;
    assert(span * ((x + 1) * 2_000_000) == span * x * 2_000_000 + span * 2_000_000)
        by (nonlinear_arith);
    assert(span * (x * 2_000_000) == span * x * 2_000_000) by (nonlinear_arith);
}

/// What an uploaded waveform gives at its `count`-th service after the first
/// one, serviced whenever a sample is due and never late.
pub open spec fn on_time(
    scheduler: crate::arb::Scheduler,
    start: Start,
    buffer: Buffer,
    first: u16,
    count: nat,
) -> (crate::arb::Scheduler, Option<Tick>)
    decreases count,
{
    let now = ((first + count * start.multiplier_ticks) % 0x1_0000) as u16;
    if count == 0 {
        scheduler.after(now, start, buffer)
    } else {
        on_time(scheduler, start, buffer, first, (count - 1) as nat).0.after(now, start, buffer)
    }
}

/// A waveform of `n` repetitions that is serviced on time is its samples in
/// order, from the first, `n` times over, and then the end; without a number of
/// repetitions it goes on for ever. Nothing is late, and nothing is skipped.
pub proof fn uploads_are_played_in_full(
    scheduler: crate::arb::Scheduler,
    start: Start,
    buffer: Buffer,
    first: u16,
    count: nat,
)
    requires
        start.wf(),
        !scheduler.active,
        start.repetitions == 0 || count <= start.repetitions * start.count,
    ensures
        ({
            let (next, tick) = on_time(scheduler, start, buffer, first, count);
            let ends = start.repetitions > 0 && count == start.repetitions * start.count;
            &&& tick == if ends {
                Some(Tick::Finished)
            } else {
                Some(Tick::Sample(buffer.millivolts[count as int % start.count as int]))
            }
            &&& next.active == !ends
            &&& next.status.index == count as int % start.count as int
            &&& next.status.cycles == count as int / start.count as int || next.status.cycles
                == u32::MAX && count as int / start.count as int > u32::MAX
            &&& next.status.late_updates == 0
            &&& next.status.skipped_cycles == 0
            &&& next.next_update_tick == (first + (count + 1) * start.multiplier_ticks) % 0x1_0000
        }),
    decreases count,
{
    let c = start.count as int;
    let m = start.multiplier_ticks as int;
    let n = start.repetitions as int;
    let k = count as int;
    if count == 0 {
        assert(n > 0 ==> n * c > 0) by (nonlinear_arith)
            requires
                c >= 1,
        ;
        assert(0 * c == 0 && 0 * m == 0 && (0 + 1) * m == m) by (nonlinear_arith);
        lemma_split(0, c, 0, 0);
    } else {
        let before = on_time(scheduler, start, buffer, first, (count - 1) as nat).0;
        assert(n > 0 ==> k - 1 < n * c);
        uploads_are_played_in_full(scheduler, start, buffer, first, (count - 1) as nat);
        let now = ((first + k * m) % 0x1_0000) as u16;
        assert(before.next_update_tick == now);
        assert(before.due(now, start) == 1);
        lemma_next_position(k, c);
        assert((k + 1) * m == k * m + m) by (nonlinear_arith);
        lemma_time_adds_up(first as int, k * m, m);
        if n > 0 {
            lemma_last_position(k, c, n);
        }
        let next = on_time(scheduler, start, buffer, first, count).0;
        assert(before.active);
        assert(next.status == before.advanced(now, start).status);
        assert(before.status.index + before.due(now, start) == (k - 1) % c + 1);
    }
}

/// The clock is the same whether it is taken modulo its range early or late.
proof fn lemma_time_adds_up(first: int, past: int, more: int)
    ensures
        ((first + past) % 0x1_0000 + more) % 0x1_0000 == (first + (past + more)) % 0x1_0000,
{
}

/// One sample further in the buffer, and one turn further at its end.
proof fn lemma_next_position(k: int, c: int)
    requires
        k >= 1,
        c >= 1,
    ensures
        ({
            let position = (k - 1) % c + 1;
            &&& 0 <= (k - 1) % c < c
            &&& 0 <= (k - 1) / c
            &&& position % c == k % c
            &&& (k - 1) / c + position / c == k / c
            &&& position / c == 0 || position / c == 1
            &&& 0 <= k % c < c
        }),
{
    let index = (k - 1) % c;
    let turns = (k - 1) / c;
    vstd::arithmetic::div_mod::lemma_fundamental_div_mod(k - 1, c);
    vstd::arithmetic::div_mod::lemma_mod_bound(k - 1, c);
    vstd::arithmetic::div_mod::lemma_div_pos_is_pos(k - 1, c);
    assert(c * turns == turns * c && 1 * c == c && 0 * c == 0 && (turns + 1) * c == turns * c + c)
        by (nonlinear_arith);
    if index + 1 == c {
        lemma_split(k, c, turns + 1, 0);
        lemma_split(index + 1, c, 1, 0);
    } else {
        lemma_split(k, c, turns, index + 1);
        lemma_split(index + 1, c, 0, index + 1);
    }
}

/// The repetitions are over exactly after all of their samples.
proof fn lemma_last_position(k: int, c: int, n: int)
    requires
        0 <= k <= n * c,
        c >= 1,
        n >= 1,
    ensures
        k / c >= n <==> k == n * c,
        k / c <= n,
{
    let quotient = k / c;
    let remainder = k % c;
    vstd::arithmetic::div_mod::lemma_fundamental_div_mod(k, c);
    vstd::arithmetic::div_mod::lemma_mod_bound(k, c);
    assert((quotient >= n <==> k == n * c) && quotient <= n) by (nonlinear_arith)
        requires
            k == c * quotient + remainder,
            0 <= remainder < c,
            k <= n * c,
            c >= 1,
    ;
}

/// A quotient and a remainder are the only ones.
proof fn lemma_split(value: int, by: int, quotient: int, remainder: int)
    requires
        by >= 1,
        0 <= remainder < by,
        value == quotient * by + remainder,
    ensures
        value / by == quotient,
        value % by == remainder,
{
    vstd::arithmetic::div_mod::lemma_fundamental_div_mod_converse(value, by, quotient, remainder);
}

/// Playback follows the clock, however late it is serviced: it goes on by as
/// many samples as have fallen due, and no more; the next one is due in step
/// with the first. It ends when the repetitions are over, and not before.
pub proof fn uploads_follow_the_clock(
    scheduler: crate::arb::Scheduler,
    now: u16,
    start: Start,
    buffer: Buffer,
)
    requires
        start.wf(),
        scheduler.active,
        scheduler.status.index < start.count,
        (now - scheduler.next_update_tick) % 0x1_0000 < 0x8000,
        scheduler.after(now, start, buffer).0.status.cycles < u32::MAX,
        scheduler.after(now, start, buffer).0.status.skipped_cycles < u32::MAX,
        scheduler.status.late_updates < u32::MAX,
    ensures
        ({
            let (next, tick) = scheduler.after(now, start, buffer);
            let late = (now - scheduler.next_update_tick) % 0x1_0000;
            let due = (next.status.cycles - scheduler.status.cycles) * start.count
                + next.status.index - scheduler.status.index;
            let turns = next.status.cycles - scheduler.status.cycles;
            &&& (due - 1) * start.multiplier_ticks <= late < due * start.multiplier_ticks
            &&& next.status.index < start.count
            &&& turns >= 0
            &&& next.next_update_tick == (scheduler.next_update_tick + due
                * start.multiplier_ticks) % 0x1_0000
            &&& next.status.late_updates == scheduler.status.late_updates + if due > 1 {
                1int
            } else {
                0
            }
            &&& next.status.skipped_cycles == scheduler.status.skipped_cycles + if turns > 1 {
                turns - 1
            } else {
                0
            }
            &&& tick == if start.repetitions > 0 && next.status.cycles >= start.repetitions {
                Some(Tick::Finished)
            } else {
                Some(Tick::Sample(buffer.millivolts[next.status.index as int]))
            }
            &&& next.active <==> tick != Some(Tick::Finished)
        }),
{
    let late = (now - scheduler.next_update_tick) % 0x1_0000;
    let m = start.multiplier_ticks as int;
    let c = start.count as int;
    let due = scheduler.due(now, start);
    let position = scheduler.status.index + due;
    let turns = position / c;
    let whole = late / m;
    let part = late % m;
    vstd::arithmetic::div_mod::lemma_fundamental_div_mod(late, m);
    vstd::arithmetic::div_mod::lemma_mod_bound(late, m);
    vstd::arithmetic::div_mod::lemma_fundamental_div_mod(position, c);
    vstd::arithmetic::div_mod::lemma_mod_bound(position, c);
    vstd::arithmetic::div_mod::lemma_div_pos_is_pos(late, m);
    vstd::arithmetic::div_mod::lemma_div_pos_is_pos(position, c);
    assert(m * whole == whole * m && (whole + 1) * m == whole * m + m && c * turns == turns * c)
        by (nonlinear_arith);
}

/// What the firmware is asked to do for a waveform follows its status: to
/// prepare a start, to stop, to take the next sample of the waveform that is
/// selected, to shut down once after a failure, and else nothing. Only a running
/// waveform keeps a generator going.
pub proof fn waveforms_follow_their_status(
    service: Service,
    status: AwgStatus,
    source: AwgSource,
    config: AwgConfig,
    now: u16,
    buffer: Option<&Buffer>,
)
    ensures
        ({
            let (next, directive) = service.after(status, source, config, now, buffer);
            &&& status is StartRequested ==> directive == Directive::PrepareStart
            &&& status is StopRequested ==> directive == Directive::Stop
            &&& status is Stopped || status is Starting ==> directive == Directive::NoAction
            &&& status is Fault ==> directive == if service.builtin.active
                || service.arbitrary.active {
                Directive::FaultShutdown
            } else {
                Directive::NoAction
            }
            &&& status is Starting ==> next == service
            &&& !(status is Running || status is Starting) ==> !next.builtin.active
                && !next.arbitrary.active
            &&& status is StopRequested && source is Arbitrary ==> next.runtime.active is None
                && next.runtime.pending_ack is None
            &&& !(status is StopRequested && source is Arbitrary) && !(status is Running)
                ==> next.runtime == service.runtime
            &&& status is Running && source is Builtin ==> {
                &&& !next.arbitrary.active
                &&& next.runtime == service.runtime
                &&& next.builtin == service.builtin.after(now, config).0
                &&& directive == match service.builtin.after(now, config).1 {
                    Some(millivolts) => Directive::Sample(millivolts),
                    None => Directive::NoAction,
                }
            }
            &&& status is Running && source is Arbitrary && (service.runtime.active is None
                || buffer is None) ==> directive == Directive::FailSafeShutdown
                && !next.builtin.active && !next.arbitrary.active
            &&& status is Running && source is Arbitrary && service.runtime.active is Some
                && buffer is Some ==> {
                let (arbitrary, tick) = service.arbitrary.after(
                    now,
                    service.runtime.active->Some_0,
                    *(buffer->Some_0),
                );
                &&& !next.builtin.active
                &&& next.arbitrary == arbitrary
                &&& next.runtime.pending_ack == service.runtime.pending_ack
                &&& match tick {
                    Some(Tick::Sample(millivolts)) => directive == Directive::Sample(millivolts)
                        && next.runtime.active == service.runtime.active,
                    Some(Tick::Finished) => directive == Directive::Finished
                        && next.runtime.active is None,
                    None => directive == Directive::NoAction && next.runtime.active
                        == service.runtime.active,
                }
            }
        }),
{
}

/// A waveform starts at the phase at which its shape is low, which is also its
/// first sample; and it starts anew after every stop.
pub proof fn waveforms_start_low(
    scheduler: Scheduler,
    service: Service,
    now: u16,
    config: AwgConfig,
)
    requires
        !scheduler.active,
        config.low_mv <= config.high_mv,
        config.duty_percent < 100,
    ensures
        ({
            let (next, emitted) = scheduler.after(now, config);
            &&& emitted == Some(config.low_mv)
            &&& sample(config, next.phase) == config.low_mv
            &&& next.phase_remainder == 0
            &&& next.last_phase_tick == now
            &&& next.next_update_tick == (now + 1) % 0x1_0000
        }),
        !service.stopped().builtin.active,
        service.stopped().builtin.phase == 0,
        service.stopped().builtin.phase_remainder == 0,
        !service.stopped().arbitrary.active,
        service.stopped().runtime == service.runtime,
{
    let next = scheduler.after(now, config).0;
    if config.waveform == AwgWaveform::Sine {
        sines_have_their_landmarks(config);
    } else if config.waveform == AwgWaveform::Square {
        assert((100 - config.duty_percent) * 0x1_0000_0000 / 100 > 0);
    }
    let span = config.high_mv - config.low_mv;
    assert(level(config, next.phase) == 0);
    assert(span * 0 == 0) by (nonlinear_arith);
}

} // verus!
