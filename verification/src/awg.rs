//! Built-in waveforms: a phase accumulator and the shapes it drives.

use crate::app::{AwgConfig, AwgWaveform};
use crate::executor::clock_reached;
use vstd::prelude::*;

verus! {

pub const TICKS_PER_SECOND: u32 = 2_000;

/// Phase units of one tick at one millihertz are `2^32` of these.
pub const PHASE_DENOMINATOR: u64 = 2_000_000;

/// One cycle of a sine in 32 points, from zero crossing to zero crossing.
pub const SINE: [u16; 32] = [
    32768, 39160, 45307, 50972, 55938, 59980, 62910, 64685, 65535, 64685, 62910, 59980, 55938,
    50972, 45307, 39160, 32768, 26375, 20228, 14563, 9597, 5555, 2625, 850, 0, 850, 2625, 5555,
    9597, 14563, 20228, 26375,
];

/// Generates a built-in waveform. The phase follows the clock exactly, and a
/// late service emits one current sample instead of a burst of stale ones.
pub struct Scheduler {
    pub phase: u32,
    pub phase_remainder: u64,
    pub last_phase_tick: u16,
    pub next_update_tick: u16,
    pub active: bool,
}

/// The sine at a phase: the table, interpolated between its points.
pub open spec fn sine_level(phase: u32) -> int {
    let index = phase as int / 0x800_0000;
    let fraction = phase as int / 0x800 % 0x1_0000;
    let start = SINE[index] as int;
    let end = SINE[(index + 1) % 32] as int;
    start + (end - start) * fraction / 0x1_0000
}

/// The level of a shape at a phase, from 0 to 65535. A square wave begins each
/// cycle low and is high for its duty share.
pub open spec fn level(config: AwgConfig, phase: u32) -> int {
    let x = phase as int / 0x1_0000;
    match config.waveform {
        AwgWaveform::Square => if phase >= (100 - config.duty_percent) * 0x1_0000_0000 / 100 {
            0xffff
        } else {
            0
        },
        AwgWaveform::Ramp => x,
        AwgWaveform::Triangle => if x < 0x8000 {
            2 * x
        } else {
            2 * (0xffff - x)
        },
        AwgWaveform::Sine => sine_level(phase),
    }
}

/// The voltage at a phase.
pub open spec fn sample(config: AwgConfig, phase: u32) -> int {
    config.low_mv + (config.high_mv - config.low_mv) * level(config, phase) / 0xffff
}

/// True of the configurations whose arithmetic is in range.
pub open spec fn playable(config: AwgConfig) -> bool {
    config.low_mv <= config.high_mv && (config.waveform == AwgWaveform::Square
        ==> config.duty_percent <= 100)
}

/// Whether a waveform can be generated from its configuration.
pub fn is_playable(config: &AwgConfig) -> (result: bool)
    ensures
        result == playable(*config),
{
    config.low_mv <= config.high_mv && (config.waveform != AwgWaveform::Square
        || config.duty_percent <= 100)
}

impl Scheduler {
    pub open spec fn wf(self) -> bool {
        self.phase_remainder < PHASE_DENOMINATOR
    }

    /// Ticks since the phase was last brought up to date.
    pub open spec fn elapsed(self, now: u16) -> int {
        (now - self.last_phase_tick) % 0x1_0000
    }

    /// What is added to the phase, in fractions of `PHASE_DENOMINATOR`.
    pub open spec fn scaled_advance(self, now: u16, frequency_millihz: u32) -> int {
        frequency_millihz * self.elapsed(now) % PHASE_DENOMINATOR as int * 0x1_0000_0000
            + self.phase_remainder
    }

    /// The scheduler with its phase brought up to date.
    pub open spec fn advanced(self, now: u16, frequency_millihz: u32) -> Self {
        let scaled = self.scaled_advance(now, frequency_millihz);
        Scheduler {
            phase: ((self.phase + scaled / PHASE_DENOMINATOR as int) % 0x1_0000_0000) as u32,
            phase_remainder: (scaled % PHASE_DENOMINATOR as int) as u64,
            last_phase_tick: now,
            next_update_tick: ((now + 1) % 0x1_0000) as u16,
            active: true,
        }
    }

    /// The scheduler at the first sample of a waveform. A sine starts at its
    /// trough, so that every shape starts low.
    pub open spec fn started(now: u16, config: AwgConfig) -> Self {
        Scheduler {
            phase: if config.waveform == AwgWaveform::Sine {
                0xc000_0000
            } else {
                0
            },
            phase_remainder: 0,
            last_phase_tick: now,
            next_update_tick: ((now + 1) % 0x1_0000) as u16,
            active: true,
        }
    }

    /// The scheduler after a service at `now`, and the sample it emits.
    pub open spec fn after(self, now: u16, config: AwgConfig) -> (Self, Option<u16>) {
        if !self.active {
            (Self::started(now, config), Some(config.low_mv))
        } else if !clock_reached(now, self.next_update_tick) {
            (self, None)
        } else {
            let next = self.advanced(now, config.frequency_millihz);
            (next, Some(sample(config, next.phase) as u16))
        }
    }

    /// True when a service at `now` generates a sample, other than the first.
    pub open spec fn generates(self, now: u16) -> bool {
        self.active && clock_reached(now, self.next_update_tick)
    }

    /// A scheduler that generates nothing.
    pub open spec fn idle() -> Self {
        Scheduler {
            phase: 0,
            phase_remainder: 0,
            last_phase_tick: 0,
            next_update_tick: 0,
            active: false,
        }
    }

    pub fn new() -> (scheduler: Self)
        ensures
            scheduler == Scheduler::idle(),
            scheduler.wf(),
    {
        Scheduler {
            phase: 0,
            phase_remainder: 0,
            last_phase_tick: 0,
            next_update_tick: 0,
            active: false,
        }
    }

    pub fn is_active(&self) -> (active: bool)
        ensures
            active == self.active,
    {
        self.active
    }

    pub fn stop(&mut self)
        ensures
            *final(self) == (Scheduler {
                active: false,
                phase: 0,
                phase_remainder: 0,
                ..*old(self)
            }),
            final(self).wf(),
    {
        self.active = false;
        self.phase = 0;
        self.phase_remainder = 0;
    }

    /// Services the waveform at `now` and emits a sample where one is due.
    pub fn tick(&mut self, now: u16, config: AwgConfig) -> (emitted: Option<u16>)
        requires
            old(self).wf(),
            old(self).generates(now) ==> playable(config),
        ensures
            final(self).wf(),
            (*final(self), emitted) == old(self).after(now, config),
            playable(config) && emitted is Some ==> config.low_mv <= emitted->Some_0
                <= config.high_mv,
    {
        if !self.active {
            self.active = true;
            self.phase = if config.waveform == AwgWaveform::Sine {
                0xc000_0000
            } else {
                0
            };
            self.phase_remainder = 0;
            self.last_phase_tick = now;
            self.next_update_tick = now.wrapping_add(1);
            return Some(config.low_mv);
        }
        if now.wrapping_sub(self.next_update_tick) >= 0x8000 {
            return None;
        }
        let elapsed: u16 = now.wrapping_sub(self.last_phase_tick);
        assert(config.frequency_millihz as int * elapsed as int <= 0xffff_ffff * 0xffff)
            by (nonlinear_arith)
            requires
                0 <= config.frequency_millihz as int <= 0xffff_ffff,
                0 <= elapsed as int <= 0xffff,
        ;
        let cycles: u64 = config.frequency_millihz as u64 * elapsed as u64;
        let scaled: u64 = cycles % PHASE_DENOMINATOR * 0x1_0000_0000 + self.phase_remainder;
        let steps: u64 = scaled / PHASE_DENOMINATOR;
        assert(steps <= 0xffff_ffff);
        self.last_phase_tick = now;
        self.next_update_tick = now.wrapping_add(1);
        self.phase = self.phase.wrapping_add(steps as u32);
        self.phase_remainder = scaled % PHASE_DENOMINATOR;
        Some(sample_at(&config, self.phase))
    }
}

impl Default for Scheduler {
    fn default() -> (scheduler: Self)
        ensures
            scheduler == Scheduler::idle(),
    {
        Self::new()
    }
}

fn sine_at(phase: u32) -> (normalized: u16)
    ensures
        normalized as int == sine_level(phase),
{
    let index: usize = (phase / 0x800_0000) as usize;
    let fraction: u32 = phase / 0x800 % 0x1_0000;
    let start: u32 = SINE[index] as u32;
    let following: usize = if index == 31 {
        0
    } else {
        index + 1
    };
    let end: u32 = SINE[following] as u32;
    assert(following as int == (index + 1) % 32);
    if end >= start {
        let rise: u32 = end - start;
        proof {
            lemma_share(rise as int, fraction as int);
        }
        (start + rise * fraction / 0x1_0000) as u16
    } else {
        let fall: u32 = start - end;
        proof {
            lemma_share(fall as int, fraction as int);
            assert((end - start) * fraction == -(fall * fraction)) by (nonlinear_arith)
                requires
                    fall == start - end,
            ;
        }
        // Rounds toward the lower level, as the rising branch does.
        let dropped: u32 = (fall * fraction + 0xffff) / 0x1_0000;
        assert(dropped <= fall);
        assert(-(fall * fraction) / 0x1_0000 == -(dropped as int));
        (start - dropped) as u16
    }
}

/// A share of a 16-bit difference.
proof fn lemma_share(difference: int, fraction: int)
    requires
        0 <= difference <= 0xffff,
        0 <= fraction < 0x1_0000,
    ensures
        0 <= difference * fraction <= 0xffff * 0xffff,
        difference * fraction / 0x1_0000 <= difference,
        (difference * fraction + 0xffff) / 0x1_0000 <= difference,
{
    assert(0 <= difference * fraction <= difference * 0xffff) by (nonlinear_arith)
        requires
            0 <= difference,
            0 <= fraction <= 0xffff,
    ;
}

fn level_at(config: &AwgConfig, phase: u32) -> (normalized: u16)
    requires
        playable(*config),
    ensures
        normalized as int == level(*config, phase),
{
    let x: u16 = (phase / 0x1_0000) as u16;
    match config.waveform {
        AwgWaveform::Square => {
            let high_threshold: u64 = (100 - config.duty_percent) as u64 * 0x1_0000_0000 / 100;
            if phase as u64 >= high_threshold {
                u16::MAX
            } else {
                0
            }
        },
        AwgWaveform::Ramp => x,
        AwgWaveform::Triangle => if x < 0x8000 {
            x * 2
        } else {
            (u16::MAX - x) * 2
        },
        AwgWaveform::Sine => sine_at(phase),
    }
}

fn sample_at(config: &AwgConfig, phase: u32) -> (millivolts: u16)
    requires
        playable(*config),
    ensures
        millivolts as int == sample(*config, phase),
        config.low_mv <= millivolts <= config.high_mv,
{
    let span: u32 = (config.high_mv - config.low_mv) as u32;
    let normalized: u32 = level_at(config, phase) as u32;
    assert(0 <= span * normalized <= span * 0xffff) by (nonlinear_arith)
        requires
            0 <= span,
            0 <= normalized <= 0xffff,
    ;
    assert(span * 0xffff <= 0xffff * 0xffff);
    let offset: u32 = span * normalized / 0xffff;
    assert(offset <= span);
    config.low_mv + offset as u16
}

/// Whatever the phase, a sample stays between the two levels.
pub proof fn samples_stay_between_the_levels(config: AwgConfig, phase: u32)
    requires
        playable(config),
    ensures
        config.low_mv <= sample(config, phase) <= config.high_mv,
{
    lemma_level_range(config, phase);
    let span = config.high_mv - config.low_mv;
    let normalized = level(config, phase);
    assert(0 <= span * normalized <= span * 0xffff) by (nonlinear_arith)
        requires
            0 <= span,
            0 <= normalized <= 0xffff,
    ;
}

proof fn lemma_level_range(config: AwgConfig, phase: u32)
    requires
        playable(config),
    ensures
        0 <= level(config, phase) <= 0xffff,
{
    if config.waveform == AwgWaveform::Sine {
        let index = phase as int / 0x800_0000;
        let fraction = phase as int / 0x800 % 0x1_0000;
        let start = SINE[index] as int;
        let end = SINE[(index + 1) % 32] as int;
        if end >= start {
            lemma_share(end - start, fraction);
        } else {
            lemma_share(start - end, fraction);
            assert((end - start) * fraction == -((start - end) * fraction)) by (nonlinear_arith);
        }
    }
}

/// After a stop, and on a fresh scheduler, the first sample is the low level.
pub proof fn first_sample_is_low(scheduler: Scheduler, now: u16, config: AwgConfig)
    requires
        !scheduler.active,
    ensures
        scheduler.after(now, config).1 == Some(config.low_mv),
        scheduler.after(now, config).0 == Scheduler::started(now, config),
{
}

/// A second service in the same tick emits nothing.
pub proof fn one_sample_per_tick(scheduler: Scheduler, now: u16, config: AwgConfig)
    requires
        scheduler.after(now, config).1 is Some,
    ensures
        scheduler.after(now, config).0.after(now, config).1 is None,
{
}

/// The duty share matters to square waves only.
pub proof fn duty_shapes_squares_only(config: AwgConfig, other: AwgConfig, phase: u32)
    requires
        config.waveform != AwgWaveform::Square,
        other == (AwgConfig { duty_percent: other.duty_percent, ..config }),
    ensures
        sample(config, phase) == sample(other, phase),
{
}

/// The phase never drifts: whole cycles apart, it advances by exactly the
/// elapsed time at the configured frequency.
pub proof fn phase_never_drifts(scheduler: Scheduler, now: u16, frequency_millihz: u32)
    requires
        scheduler.wf(),
    ensures
        scheduler.advanced(now, frequency_millihz).wf(),
        ({
            let next = scheduler.advanced(now, frequency_millihz);
            let cycle = PHASE_DENOMINATOR as int * 0x1_0000_0000;
            let before = scheduler.phase * PHASE_DENOMINATOR as int + scheduler.phase_remainder;
            let after = next.phase * PHASE_DENOMINATOR as int + next.phase_remainder;
            exists|cycles: int|
                before + frequency_millihz * scheduler.elapsed(now) * 0x1_0000_0000 == after
                    + #[trigger] (cycles * cycle)
        }),
{
    let next = scheduler.advanced(now, frequency_millihz);
    let d = PHASE_DENOMINATOR as int;
    let turn = 0x1_0000_0000int;
    let cycle = d * turn;
    let product = frequency_millihz * scheduler.elapsed(now);
    let whole = product / d;
    let fraction = product % d;
    let scaled = scheduler.scaled_advance(now, frequency_millihz);
    let steps = scaled / d;
    let sum = scheduler.phase + steps;
    let turns = sum / turn;
    assert(product == whole * d + fraction) by (nonlinear_arith)
        requires
            whole == product / d,
            fraction == product % d,
            d > 0,
    ;
    assert(scaled == steps * d + scaled % d) by (nonlinear_arith)
        requires
            steps == scaled / d,
            d > 0,
    ;
    assert(0 <= steps);
    assert(sum == turns * turn + next.phase);
    let cycles = whole + turns;
    assert(product * turn == whole * cycle + fraction * turn) by (nonlinear_arith)
        requires
            product == whole * d + fraction,
            cycle == d * turn,
    ;
    assert(next.phase * d == scheduler.phase * d + steps * d - turns * cycle) by (nonlinear_arith)
        requires
            scheduler.phase + steps == turns * turn + next.phase,
            cycle == d * turn,
    ;
    assert(cycles * cycle == whole * cycle + turns * cycle) by (nonlinear_arith)
        requires
            cycles == whole + turns,
    ;
    let before = scheduler.phase * d + scheduler.phase_remainder;
    let after = next.phase * d + next.phase_remainder;
    assert(before + product * turn == after + cycles * cycle);
}

} // verus!
