//! Uploaded waveforms: the sample buffer, the upload session, the playback
//! scheduler, and the lifetime of a run.

use crate::executor::clock_reached;
use crate::limits::{max_voltage, min_voltage, voltage_range};
use vstd::prelude::*;

verus! {

/// Samples that a buffer holds.
pub const BUFFER_CAPACITY: usize = 256;

/// Samples that one upload command carries.
pub const CHUNK_CAPACITY: usize = 8;

/// A request to play the first `count` samples, each for `multiplier_ticks`
/// ticks, `repetitions` times over; zero repetitions play until stopped.
#[derive(Clone, Copy, Debug, PartialEq, Eq, Structural)]
pub struct Start {
    pub channel: u8,
    pub count: u16,
    pub multiplier_ticks: u16,
    pub repetitions: u32,
}

/// Samples uploaded by one command: `len` of them, from `offset` on.
#[derive(Clone, Copy, Debug, PartialEq, Eq)]
pub struct DataChunk {
    pub channel: u8,
    pub offset: u16,
    pub len: u8,
    pub millivolts: [u16; CHUNK_CAPACITY],
}

/// What playback asks for.
#[derive(Clone, Copy, Debug, PartialEq, Eq, Structural)]
pub enum Tick {
    Sample(u16),
    Finished,
}

#[derive(Clone, Copy, Debug, PartialEq, Eq, Structural)]
pub struct SchedulerStatus {
    pub index: u16,
    pub cycles: u32,
    pub late_updates: u32,
    pub skipped_cycles: u32,
}

#[derive(Clone, Copy, Debug, PartialEq, Eq, Structural)]
pub enum RuntimeDirective {
    Run(Start),
    Shutdown,
}

/// The samples of an uploaded waveform.
#[derive(Clone, Copy)]
pub struct Buffer {
    pub millivolts: [u16; BUFFER_CAPACITY],
}

impl Start {
    /// True of a request that can be played from a buffer.
    pub open spec fn wf(self) -> bool {
        &&& self.channel == 3 || self.channel == 4
        &&& 1 <= self.count <= BUFFER_CAPACITY
        &&& 1 <= self.multiplier_ticks < 0x8000
    }
}

impl DataChunk {
    /// True of a chunk whose samples have a place in a buffer.
    pub open spec fn wf(self) -> bool {
        self.len <= CHUNK_CAPACITY && self.offset + self.len <= BUFFER_CAPACITY
    }
}

impl Buffer {
    pub fn new() -> (buffer: Self)
        ensures
            forall|i: int| 0 <= i < BUFFER_CAPACITY ==> #[trigger] buffer.millivolts[i] == 0,
    {
        Buffer { millivolts: [0;BUFFER_CAPACITY] }
    }

    /// Takes in the samples of a chunk; the others stay as they are.
    pub fn write(&mut self, chunk: DataChunk)
        requires
            chunk.wf(),
        ensures
            forall|i: int|
                0 <= i < BUFFER_CAPACITY ==> #[trigger] final(self).millivolts[i] == if chunk.offset
                    <= i < chunk.offset + chunk.len {
                    chunk.millivolts[i - chunk.offset]
                } else {
                    old(self).millivolts[i]
                },
    {
        let mut index: usize = 0;
        while index < chunk.len as usize
            invariant
                chunk.wf(),
                index <= chunk.len,
                forall|i: int|
                    0 <= i < BUFFER_CAPACITY ==> #[trigger] self.millivolts[i]
                        == if chunk.offset <= i < chunk.offset + index {
                        chunk.millivolts[i - chunk.offset]
                    } else {
                        old(self).millivolts[i]
                    },
            decreases chunk.len - index,
        {
            self.millivolts[chunk.offset as usize + index] = chunk.millivolts[index];
            index = index + 1;
        }
    }

    /// True when the first `count` samples fit the channel.
    pub open spec fn in_range(self, channel: int, count: int) -> bool {
        forall|i: int|
            0 <= i < count ==> min_voltage(channel) <= (#[trigger] self.millivolts[i])
                <= max_voltage(channel)
    }

    /// `low` and `high` are the extremes of the first `count` samples.
    pub open spec fn spans(self, count: int, low: u16, high: u16) -> bool {
        &&& forall|i: int| 0 <= i < count ==> low <= (#[trigger] self.millivolts[i]) <= high
        &&& exists|i: int| 0 <= i < count && (#[trigger] self.millivolts[i]) == low
        &&& exists|i: int| 0 <= i < count && (#[trigger] self.millivolts[i]) == high
    }

    /// The first, lowest and highest sample of a run, or `None` where a sample
    /// does not fit the channel.
    pub fn validate(&self, start: Start) -> (bounds: Option<(u16, u16, u16)>)
        requires
            start.wf(),
        ensures
            bounds is Some <==> self.in_range(start.channel as int, start.count as int),
            bounds matches Some((initial, low, high)) ==> initial == self.millivolts[0]
                && self.spans(start.count as int, low, high),
    {
        let range = voltage_range(start.channel);
        let mut low: u16 = self.millivolts[0];
        let mut high: u16 = self.millivolts[0];
        let ghost mut low_at: int = 0;
        let ghost mut high_at: int = 0;
        let mut index: usize = 0;
        while index < start.count as usize
            invariant
                start.wf(),
                index <= start.count,
                range.0 == min_voltage(start.channel as int),
                range.1 == max_voltage(start.channel as int),
                self.in_range(start.channel as int, index as int),
                forall|i: int|
                    0 <= i < index ==> low <= (#[trigger] self.millivolts[i]) <= high,
                0 <= low_at < start.count,
                0 <= high_at < start.count,
                self.millivolts[low_at] == low,
                self.millivolts[high_at] == high,
            decreases start.count - index,
        {
            let millivolts: u16 = self.millivolts[index];
            if millivolts < range.0 || millivolts > range.1 {
                assert(!self.in_range(start.channel as int, start.count as int)) by {
                    assert(self.millivolts[index as int] == millivolts);
                }
                return None;
            }
            if millivolts < low {
                low = millivolts;
                proof {
                    low_at = index as int;
                }
            }
            if millivolts > high {
                high = millivolts;
                proof {
                    high_at = index as int;
                }
            }
            index = index + 1;
        }
        Some((self.millivolts[0], low, high))
    }
}

/// Watches that the chunks of an upload arrive in sequence.
#[derive(Clone, Copy, Debug, PartialEq, Eq, Structural)]
pub struct UploadSession {
    pub channel: u8,
    pub received: u16,
}

impl UploadSession {
    pub fn new() -> (session: Self)
        ensures
            session == (UploadSession { channel: 0, received: 0 }),
    {
        UploadSession { channel: 0, received: 0 }
    }

    /// True when a chunk begins an upload or goes on with the one under way.
    pub open spec fn expects(self, chunk: DataChunk) -> bool {
        chunk.offset == 0 || (chunk.channel == self.channel && chunk.offset == self.received)
    }

    /// Accepts a chunk that is next in sequence; any other is refused and
    /// changes nothing.
    pub fn accept(&mut self, chunk: DataChunk) -> (result: Result<(), ()>)
        requires
            chunk.wf(),
        ensures
            result is Ok <==> old(self).expects(chunk),
            *final(self) == (if old(self).expects(chunk) {
                UploadSession {
                    channel: chunk.channel,
                    received: (chunk.offset + chunk.len) as u16,
                }
            } else {
                *old(self)
            }),
    {
        if chunk.offset != 0 && (chunk.channel != self.channel || chunk.offset != self.received) {
            return Err(());
        }
        self.channel = chunk.channel;
        self.received = chunk.offset + chunk.len as u16;
        Ok(())
    }

    /// Whether everything that `start` plays has been uploaded.
    pub fn is_complete_for(&self, start: Start) -> (complete: bool)
        ensures
            complete == (self.channel == start.channel && self.received >= start.count),
    {
        self.channel == start.channel && self.received >= start.count
    }
}

/// `count + 1`, stopping at the largest value.
pub open spec fn counted(count: u32) -> u32 {
    if count == u32::MAX {
        count
    } else {
        (count + 1) as u32
    }
}

/// `count + more`, stopping at the largest value.
pub open spec fn raised(count: u32, more: int) -> u32 {
    if count + more > u32::MAX {
        u32::MAX
    } else {
        (count + more) as u32
    }
}

/// Plays an uploaded waveform against the clock. A late service skips the
/// samples whose time has passed.
#[derive(Clone, Copy, Debug, PartialEq, Eq, Structural)]
pub struct Scheduler {
    pub active: bool,
    pub next_update_tick: u16,
    pub status: SchedulerStatus,
}

impl Scheduler {
    /// A scheduler that plays nothing.
    pub open spec fn idle() -> Self {
        Scheduler {
            active: false,
            next_update_tick: 0,
            status: SchedulerStatus { index: 0, cycles: 0, late_updates: 0, skipped_cycles: 0 },
        }
    }

    /// The scheduler at the first sample.
    pub open spec fn started(now: u16, start: Start) -> Self {
        Scheduler {
            active: true,
            next_update_tick: ((now + start.multiplier_ticks) % 0x1_0000) as u16,
            status: SchedulerStatus { index: 0, cycles: 0, late_updates: 0, skipped_cycles: 0 },
        }
    }

    /// How many samples fall due at `now`.
    pub open spec fn due(self, now: u16, start: Start) -> int {
        (now - self.next_update_tick) % 0x1_0000 / start.multiplier_ticks as int + 1
    }

    /// The scheduler with its position brought up to date.
    pub open spec fn advanced(self, now: u16, start: Start) -> Self {
        let due = self.due(now, start);
        let position = self.status.index + due;
        let turns = position / start.count as int;
        Scheduler {
            active: true,
            next_update_tick: ((self.next_update_tick + due * start.multiplier_ticks)
                % 0x1_0000) as u16,
            status: SchedulerStatus {
                index: (position % start.count as int) as u16,
                cycles: raised(self.status.cycles, turns),
                late_updates: if due > 1 {
                    counted(self.status.late_updates)
                } else {
                    self.status.late_updates
                },
                skipped_cycles: if turns > 1 {
                    raised(self.status.skipped_cycles, turns - 1)
                } else {
                    self.status.skipped_cycles
                },
            },
        }
    }

    /// The scheduler after a service at `now`, and what it asks for.
    pub open spec fn after(self, now: u16, start: Start, buffer: Buffer) -> (Self, Option<Tick>) {
        if !self.active {
            (Self::started(now, start), Some(Tick::Sample(buffer.millivolts[0])))
        } else if !clock_reached(now, self.next_update_tick) {
            (self, None)
        } else {
            let next = self.advanced(now, start);
            if start.repetitions != 0 && next.status.cycles >= start.repetitions {
                (Scheduler { active: false, ..next }, Some(Tick::Finished))
            } else {
                (next, Some(Tick::Sample(buffer.millivolts[next.status.index as int])))
            }
        }
    }

    pub fn new() -> (scheduler: Self)
        ensures
            scheduler == Scheduler::idle(),
    {
        Scheduler {
            active: false,
            next_update_tick: 0,
            status: SchedulerStatus { index: 0, cycles: 0, late_updates: 0, skipped_cycles: 0 },
        }
    }

    pub fn is_active(&self) -> (active: bool)
        ensures
            active == self.active,
    {
        self.active
    }

    pub fn stop(&mut self)
        ensures
            *final(self) == (Scheduler { active: false, ..*old(self) }),
    {
        self.active = false;
    }

    pub fn status(&self) -> (status: SchedulerStatus)
        ensures
            status == self.status,
    {
        self.status
    }

    pub fn tick(&mut self, now: u16, start: Start, buffer: &Buffer) -> (tick: Option<Tick>)
        requires
            start.wf(),
        ensures
            (*final(self), tick) == old(self).after(now, start, *buffer),
    {
        if !self.active {
            self.active = true;
            self.next_update_tick = now.wrapping_add(start.multiplier_ticks);
            self.status =
            SchedulerStatus { index: 0, cycles: 0, late_updates: 0, skipped_cycles: 0 };
            return Some(Tick::Sample(buffer.millivolts[0]));
        }
        let late: u16 = now.wrapping_sub(self.next_update_tick);
        if late >= 0x8000 {
            return None;
        }
        let due: u32 = late as u32 / start.multiplier_ticks as u32 + 1;
        let ghost lateness = late as int / start.multiplier_ticks as int;
        assert(lateness * start.multiplier_ticks as int <= late) by (nonlinear_arith)
            requires
                lateness == late as int / start.multiplier_ticks as int,
                start.multiplier_ticks > 0,
        ;
        assert(due * start.multiplier_ticks <= late + start.multiplier_ticks) by (nonlinear_arith)
            requires
                due == lateness + 1,
                lateness * start.multiplier_ticks as int <= late,
        ;
        let step: u32 = due * start.multiplier_ticks as u32;
        let position: u32 = self.status.index as u32 + due;
        let turns: u32 = position / start.count as u32;
        self.next_update_tick =
        ((self.next_update_tick as u32 + step) % 0x1_0000) as u16;
        self.status.index = (position % start.count as u32) as u16;
        self.status.cycles = self.status.cycles.saturating_add(turns);
        if due > 1 {
            self.status.late_updates = self.status.late_updates.saturating_add(1);
        }
        if turns > 1 {
            self.status.skipped_cycles = self.status.skipped_cycles.saturating_add(turns - 1);
        }
        if start.repetitions != 0 && self.status.cycles >= start.repetitions {
            self.active = false;
            Some(Tick::Finished)
        } else {
            Some(Tick::Sample(buffer.millivolts[self.status.index as usize]))
        }
    }
}

/// The lifetime of an uploaded run: armed, acknowledged once it runs, and over.
#[derive(Clone, Copy, Debug, PartialEq, Eq, Structural)]
pub struct RuntimeState {
    pub active: Option<Start>,
    pub pending_ack: Option<Start>,
}

impl RuntimeState {
    pub fn new() -> (state: Self)
        ensures
            state == (RuntimeState { active: None, pending_ack: None }),
    {
        RuntimeState { active: None, pending_ack: None }
    }

    pub fn arm(&mut self, start: Start)
        ensures
            *final(self) == (RuntimeState { active: Some(start), pending_ack: Some(start) }),
    {
        self.active = Some(start);
        self.pending_ack = Some(start);
    }

    /// Gives up the run on `channel`; says whether there was one.
    pub fn cancel(&mut self, channel: u8) -> (cancelled: bool)
        ensures
            cancelled == (old(self).active matches Some(start) && start.channel == channel),
            *final(self) == (if cancelled {
                RuntimeState { active: None, pending_ack: None }
            } else {
                *old(self)
            }),
    {
        match self.active {
            Some(start) => if start.channel == channel {
                self.active = None;
                self.pending_ack = None;
                true
            } else {
                false
            },
            None => false,
        }
    }

    pub fn clear(&mut self)
        ensures
            *final(self) == (RuntimeState { active: None, pending_ack: None }),
    {
        self.active = None;
        self.pending_ack = None;
    }

    /// Ends a run that has played to its end; its acknowledgement stays due.
    pub fn finish(&mut self)
        ensures
            *final(self) == (RuntimeState { active: None, ..*old(self) }),
    {
        self.active = None;
    }

    pub fn pending_ack(&self) -> (start: Option<Start>)
        ensures
            start == self.pending_ack,
    {
        self.pending_ack
    }

    pub fn take_pending_ack(&mut self) -> (start: Option<Start>)
        ensures
            start == old(self).pending_ack,
            *final(self) == (RuntimeState { pending_ack: None, ..*old(self) }),
    {
        let start = self.pending_ack;
        self.pending_ack = None;
        start
    }

    /// What to do while the waveform runs: without a run there is nothing that
    /// could say which voltage is safe.
    pub fn directive(&self) -> (directive: RuntimeDirective)
        ensures
            directive == (match self.active {
                Some(start) => RuntimeDirective::Run(start),
                None => RuntimeDirective::Shutdown,
            }),
    {
        match self.active {
            Some(start) => RuntimeDirective::Run(start),
            None => RuntimeDirective::Shutdown,
        }
    }
}

/// Every sample that playback asks for is one that `validate` has seen.
pub proof fn played_samples_were_validated(
    scheduler: Scheduler,
    now: u16,
    start: Start,
    buffer: Buffer,
    low: u16,
    high: u16,
    millivolts: u16,
)
    requires
        start.wf(),
        buffer.spans(start.count as int, low, high),
        scheduler.after(now, start, buffer).1 == Some(Tick::Sample(millivolts)),
    ensures
        low <= millivolts <= high,
{
    if scheduler.active {
        let next = scheduler.advanced(now, start);
        assert(buffer.millivolts[next.status.index as int] == millivolts);
    } else {
        assert(buffer.millivolts[0] == millivolts);
    }
}

} // verus!
