//! The flash endurance probe: every word of a scratch page is programmed bit by
//! bit towards zero, cycle after cycle, and every step is read back.

use crate::boot_core::flash::{clean, is_clean, FlashReply, FlashStep, CR_PER, CR_PG, CR_STRT};
use vstd::prelude::*;

verus! {

/// The scratch page.
pub const SCRATCH: u32 = 0x0801_0000;

pub const PAGE_WORDS: u32 = 512;

pub const CYCLES: u32 = 100;

/// The steps from erased to zero.
pub const STEPS: u32 = 32;

/// What the probe does next.
#[derive(Clone, Copy, Debug, PartialEq, Eq, Structural)]
pub enum ProbeAction {
    ErasePage,
    Program { address: u32, value: u32 },
    Finished { pass: bool },
}

/// The first thing that went wrong: 1 or 4 erasing, 2 a timeout, 3 an error flag
/// or a mismatch.
#[derive(Clone, Copy, Debug, PartialEq, Eq, Structural)]
pub struct ProbeError {
    pub kind: u32,
    pub word: u32,
    pub step: u32,
    pub expected: u32,
    pub actual: u32,
}

/// Where the probe stands. Step 0 is the erase of a cycle.
#[derive(Clone, Copy, Debug, PartialEq, Eq, Structural)]
pub struct Probe {
    pub word: u32,
    pub step: u32,
    pub mismatches: u32,
    pub word_programs: u32,
    pub reprograms: u32,
    pub cycles_done: u32,
    pub aborted: bool,
    pub error: Option<ProbeError>,
}

/// What a word holds after `step` steps: one more low bit clear each time.
pub open spec fn pattern(step: u32) -> u32 {
    if step >= 32 {
        0
    } else {
        0xffff_ffffu32 << step
    }
}

pub fn expected_pattern(step: u32) -> (value: u32)
    ensures
        value == pattern(step),
{
    if step >= 32 {
        0
    } else {
        0xffff_ffffu32 << step
    }
}

/// Each step only clears bits, which is what a flash word can do without an
/// erase.
pub proof fn steps_only_clear_bits(step: u32)
    requires
        step < 32,
    ensures
        pattern((step + 1) as u32) & pattern(step) == pattern((step + 1) as u32),
        pattern((step + 1) as u32) != pattern(step),
{
    if step == 31 {
        assert((0xffff_ffffu32 << 31u32) != 0) by (bit_vector);
        assert(0 & (0xffff_ffffu32 << 31u32) == 0) by (bit_vector);
    } else {
        let next = (step + 1) as u32;
        assert((0xffff_ffffu32 << next) & (0xffff_ffffu32 << step) == (0xffff_ffffu32 << next) && (
        0xffff_ffffu32 << next) != (0xffff_ffffu32 << step)) by (bit_vector)
            requires
                next == step + 1,
                step < 31,
        ;
    }
}

/// What an erase or a word program of the probe does next: another step, or
/// nothing more, with how it went.
#[derive(Clone, Copy, Debug, PartialEq, Eq, Structural)]
pub enum ProbeStep {
    Do(FlashStep),
    Over(u32),
}

/// The steps of the probe's page erase, by the replies so far. It is over with
/// 0 where the page reads as erased, 1 where the flash was busy to begin with,
/// and else 4. The erase bit is cleared again on every path that set it.
pub open spec fn erase_stage(replies: Seq<FlashReply>) -> ProbeStep {
    let count = replies.len();
    if count == 0 {
        ProbeStep::Do(FlashStep::WaitReady)
    } else if replies[0] != FlashReply::Ready(true) {
        ProbeStep::Over(1)
    } else if count == 1 {
        ProbeStep::Do(FlashStep::ClearStatus)
    } else if count == 2 {
        ProbeStep::Do(FlashStep::SetControl(CR_PER))
    } else if count == 3 {
        ProbeStep::Do(FlashStep::SetAddress(SCRATCH))
    } else if count == 4 {
        ProbeStep::Do(FlashStep::SetControl(CR_STRT))
    } else if count == 5 {
        ProbeStep::Do(FlashStep::WaitReady)
    } else if replies[5] != FlashReply::Ready(true) {
        erase_end(count as int, 6, 4)
    } else if count == 6 {
        ProbeStep::Do(FlashStep::ReadStatus)
    } else if !clean(replies[6]) {
        erase_end(count as int, 7, 4)
    } else if count == 7 {
        ProbeStep::Do(FlashStep::CheckBlank { address: SCRATCH })
    } else if replies[7] == FlashReply::Blank(true) {
        erase_end(count as int, 8, 0)
    } else {
        erase_end(count as int, 8, 4)
    }
}

/// The end of an erase that is settled after `settled` replies.
pub open spec fn erase_end(count: int, settled: int, outcome: u32) -> ProbeStep {
    if count == settled {
        ProbeStep::Do(FlashStep::ClearControl(CR_PER))
    } else {
        ProbeStep::Over(outcome)
    }
}

fn end_erase(count: usize, settled: usize, outcome: u32) -> (step: ProbeStep)
    ensures
        step == erase_end(count as int, settled as int, outcome),
{
    if count == settled {
        ProbeStep::Do(FlashStep::ClearControl(CR_PER))
    } else {
        ProbeStep::Over(outcome)
    }
}

/// Erases the scratch page and checks that it is blank afterwards.
pub fn erase_page(replies: &Vec<FlashReply>) -> (step: ProbeStep)
    ensures
        step == erase_stage(replies@),
{
    let count: usize = replies.len();
    if count == 0 {
        return ProbeStep::Do(FlashStep::WaitReady);
    }
    if replies[0] != FlashReply::Ready(true) {
        return ProbeStep::Over(1);
    }
    if count <= 5 {
        return ProbeStep::Do(
            match count {
                1 => FlashStep::ClearStatus,
                2 => FlashStep::SetControl(CR_PER),
                3 => FlashStep::SetAddress(SCRATCH),
                4 => FlashStep::SetControl(CR_STRT),
                _ => FlashStep::WaitReady,
            },
        );
    }
    if replies[5] != FlashReply::Ready(true) {
        end_erase(count, 6, 4)
    } else if count == 6 {
        ProbeStep::Do(FlashStep::ReadStatus)
    } else if !is_clean(replies[6]) {
        end_erase(count, 7, 4)
    } else if count == 7 {
        ProbeStep::Do(FlashStep::CheckBlank { address: SCRATCH })
    } else if replies[7] == FlashReply::Blank(true) {
        end_erase(count, 8, 0)
    } else {
        end_erase(count, 8, 4)
    }
}

/// The steps of the probe's word program, by the replies so far: two half-words
/// and a look at the status. It is over with 0 for well, 2 for a timeout, at
/// which it stops where it stands, and 3 for an error flag.
pub open spec fn program_stage(address: u32, value: u32, replies: Seq<FlashReply>) -> ProbeStep {
    let count = replies.len();
    if count == 0 {
        ProbeStep::Do(FlashStep::WaitReady)
    } else if replies[0] != FlashReply::Ready(true) {
        ProbeStep::Over(2)
    } else if count == 1 {
        ProbeStep::Do(FlashStep::ClearStatus)
    } else if count == 2 {
        ProbeStep::Do(FlashStep::SetControl(CR_PG))
    } else if count == 3 {
        ProbeStep::Do(FlashStep::WriteHalfWord { address, value: (value % 0x1_0000) as u16 })
    } else if count == 4 {
        ProbeStep::Do(FlashStep::WaitReady)
    } else if replies[4] != FlashReply::Ready(true) {
        ProbeStep::Over(2)
    } else if count == 5 {
        ProbeStep::Do(
            FlashStep::WriteHalfWord {
                address: (address + 2) as u32,
                value: (value / 0x1_0000) as u16,
            },
        )
    } else if count == 6 {
        ProbeStep::Do(FlashStep::WaitReady)
    } else if replies[6] != FlashReply::Ready(true) {
        ProbeStep::Over(2)
    } else if count == 7 {
        ProbeStep::Do(FlashStep::ClearControl(CR_PG))
    } else if count == 8 {
        ProbeStep::Do(FlashStep::ReadStatus)
    } else if clean(replies[8]) {
        ProbeStep::Over(0)
    } else {
        ProbeStep::Over(3)
    }
}

/// Programs one word; reading it back is left to the caller.
pub fn program_word(address: u32, value: u32, replies: &Vec<FlashReply>) -> (step: ProbeStep)
    requires
        address <= 0xffff_fffd,
    ensures
        step == program_stage(address, value, replies@),
{
    let count: usize = replies.len();
    if count == 0 {
        return ProbeStep::Do(FlashStep::WaitReady);
    }
    if replies[0] != FlashReply::Ready(true) {
        return ProbeStep::Over(2);
    }
    if count <= 4 {
        return ProbeStep::Do(
            match count {
                1 => FlashStep::ClearStatus,
                2 => FlashStep::SetControl(CR_PG),
                3 => FlashStep::WriteHalfWord { address, value: (value % 0x1_0000) as u16 },
                _ => FlashStep::WaitReady,
            },
        );
    }
    if replies[4] != FlashReply::Ready(true) {
        return ProbeStep::Over(2);
    }
    if count == 5 {
        return ProbeStep::Do(
            FlashStep::WriteHalfWord {
                address: address + 2,
                value: (value / 0x1_0000) as u16,
            },
        );
    }
    if count == 6 {
        return ProbeStep::Do(FlashStep::WaitReady);
    }
    if replies[6] != FlashReply::Ready(true) {
        return ProbeStep::Over(2);
    }
    match count {
        7 => ProbeStep::Do(FlashStep::ClearControl(CR_PG)),
        8 => ProbeStep::Do(FlashStep::ReadStatus),
        _ => if is_clean(replies[8]) {
            ProbeStep::Over(0)
        } else {
            ProbeStep::Over(3)
        },
    }
}

impl Probe {
    pub open spec fn wf(self) -> bool {
        &&& self.word < PAGE_WORDS
        &&& self.step <= STEPS
        &&& self.cycles_done <= CYCLES
        &&& self.word_programs == (self.cycles_done * PAGE_WORDS + self.word) * STEPS + (if self.step
            == 0 {
            0int
        } else {
            self.step - 1
        })
        &&& self.mismatches <= self.word_programs
        &&& self.reprograms <= self.word_programs
        &&& self.step == 0 ==> self.word == 0
        &&& self.cycles_done == CYCLES ==> self.step == 0
    }

    pub fn new() -> (probe: Self)
        ensures
            probe.wf(),
            probe == (Probe {
                word: 0,
                step: 0,
                mismatches: 0,
                word_programs: 0,
                reprograms: 0,
                cycles_done: 0,
                aborted: false,
                error: None,
            }),
    {
        Probe {
            word: 0,
            step: 0,
            mismatches: 0,
            word_programs: 0,
            reprograms: 0,
            cycles_done: 0,
            aborted: false,
            error: None,
        }
    }

    /// What comes next: the erase of a cycle, or the next step of a word. The
    /// probe passes when all cycles are done without a mismatch.
    pub open spec fn upcoming(self) -> ProbeAction {
        if self.aborted || self.cycles_done >= CYCLES {
            ProbeAction::Finished {
                pass: !self.aborted && self.mismatches == 0 && self.cycles_done == CYCLES,
            }
        } else if self.step == 0 {
            ProbeAction::ErasePage
        } else {
            ProbeAction::Program {
                address: (SCRATCH + 4 * self.word) as u32,
                value: pattern(self.step),
            }
        }
    }

    pub fn next_action(&self) -> (action: ProbeAction)
        requires
            self.wf(),
        ensures
            action == self.upcoming(),
    {
        if self.aborted || self.cycles_done >= CYCLES {
            ProbeAction::Finished {
                pass: !self.aborted && self.mismatches == 0 && self.cycles_done == CYCLES,
            }
        } else if self.step == 0 {
            ProbeAction::ErasePage
        } else {
            ProbeAction::Program {
                address: SCRATCH + 4 * self.word,
                value: expected_pattern(self.step),
            }
        }
    }

    /// Takes in how the erase went: 0 for well, else the kind of failure.
    pub fn erased(&mut self, kind: u32)
        requires
            old(self).wf(),
            old(self).upcoming() is ErasePage,
        ensures
            final(self).wf(),
            *final(self) == (if kind == 0 {
                Probe { step: 1, ..*old(self) }
            } else {
                Probe {
                    aborted: true,
                    error: Some(
                        ProbeError { kind, word: 0xffff_ffff, step: 0, expected: 0, actual: 0 },
                    ),
                    ..*old(self)
                }
            }),
    {
        if kind == 0 {
            self.step = 1;
        } else {
            self.aborted = true;
            self.error = Some(
                ProbeError { kind, word: 0xffff_ffff, step: 0, expected: 0, actual: 0 },
            );
        }
    }

    /// The probe one step further.
    pub open spec fn advanced(self) -> Self {
        if self.step < STEPS {
            Probe { step: (self.step + 1) as u32, ..self }
        } else if self.word + 1 < PAGE_WORDS {
            Probe { step: 1, word: (self.word + 1) as u32, ..self }
        } else {
            Probe { step: 0, word: 0, cycles_done: (self.cycles_done + 1) as u32, ..self }
        }
    }

    /// The probe with a programmed word counted and compared. Only the first
    /// mismatch is kept.
    pub open spec fn counted(self, actual: u32) -> Self {
        let expected = pattern(self.step);
        let missed = actual != expected;
        Probe {
            word_programs: (self.word_programs + 1) as u32,
            reprograms: if self.step > 1 {
                (self.reprograms + 1) as u32
            } else {
                self.reprograms
            },
            mismatches: if missed {
                (self.mismatches + 1) as u32
            } else {
                self.mismatches
            },
            error: if missed && self.mismatches == 0 {
                Some(
                    ProbeError { kind: 3, word: self.word, step: self.step, expected, actual },
                )
            } else {
                self.error
            },
            ..self
        }
    }

    /// The probe after a word that could not be programmed.
    pub open spec fn broken_off(self, outcome: u32, status: u32) -> Self {
        Probe {
            aborted: true,
            error: Some(
                ProbeError {
                    kind: if outcome == 3 {
                        3
                    } else {
                        2
                    },
                    word: self.word,
                    step: self.step,
                    expected: pattern(self.step),
                    actual: if outcome == 3 {
                        status
                    } else {
                        0
                    },
                },
            ),
            ..self
        }
    }

    /// Takes in how a word program went (0 for well, 3 for an error flag, else a
    /// timeout), with the status register and what the word reads as.
    pub fn programmed(&mut self, outcome: u32, status: u32, actual: u32)
        requires
            old(self).wf(),
            old(self).upcoming() is Program,
        ensures
            final(self).wf(),
            *final(self) == (if outcome == 0 {
                old(self).counted(actual).advanced()
            } else {
                old(self).broken_off(outcome, status)
            }),
    {
        let expected: u32 = expected_pattern(self.step);
        if outcome != 0 {
            self.aborted = true;
            self.error = Some(
                ProbeError {
                    kind: if outcome == 3 {
                        3
                    } else {
                        2
                    },
                    word: self.word,
                    step: self.step,
                    expected,
                    actual: if outcome == 3 {
                        status
                    } else {
                        0
                    },
                },
            );
            return;
        }
        assert(self.cycles_done * PAGE_WORDS <= 99 * 512) by (nonlinear_arith)
            requires
                self.cycles_done <= 99,
                PAGE_WORDS == 512,
        ;
        self.word_programs = self.word_programs + 1;
        if self.step > 1 {
            self.reprograms = self.reprograms + 1;
        }
        if actual != expected {
            if self.mismatches == 0 {
                self.error = Some(
                    ProbeError { kind: 3, word: self.word, step: self.step, expected, actual },
                );
            }
            self.mismatches = self.mismatches + 1;
        }
        if self.step < STEPS {
            self.step = self.step + 1;
        } else if self.word + 1 < PAGE_WORDS {
            self.step = 1;
            self.word = self.word + 1;
        } else {
            self.step = 0;
            self.word = 0;
            self.cycles_done = self.cycles_done + 1;
        }
    }

    /// Whether the progress is to be shown now, and whether the light is on:
    /// every 64 words.
    pub fn progress(&self) -> (light: Option<bool>)
        requires
            self.wf(),
        ensures
            light == (if self.word % 64 == 0 {
                Some(self.word / 64 % 2 == 0)
            } else {
                None
            }),
    {
        if self.word % 64 == 0 {
            Some(self.word / 64 % 2 == 0)
        } else {
            None
        }
    }
}

/// An erase that got to set the erase bit is over only once it has cleared it.
pub proof fn probe_erases_clean_up(replies: Seq<FlashReply>)
    requires
        replies.len() > 2,
        erase_stage(replies) is Over,
        replies[0] == FlashReply::Ready(true),
        erase_stage(replies.drop_last()) is Do,
    ensures
        erase_stage(replies.drop_last()) == ProbeStep::Do(FlashStep::ClearControl(CR_PER)),
{
}

/// A probe that passes has done its whole work: every step of every word of
/// every cycle, without a mismatch.
pub proof fn passing_means_everything_was_tried(probe: Probe)
    requires
        probe.wf(),
        probe.upcoming() == (ProbeAction::Finished { pass: true }),
    ensures
        probe.word_programs == CYCLES * PAGE_WORDS * STEPS,
        probe.mismatches == 0,
        !probe.aborted,
{
}

} // verus!
