//! The bounded queue between the encoder interrupt and the firmware loop.

use crate::input_policy::{byte_clamped, clamp_adjustment, multiplier, EncoderAccumulator, EncoderEvent};
use vstd::prelude::*;

verus! {

/// Detents that can wait for the firmware loop.
pub const ENCODER_QUEUE_CAPACITY: usize = 16;

/// `heapless::Deque`, the fixed-capacity double-ended queue.
#[verifier::external_type_specification]
#[verifier::external_body]
#[verifier::reject_recursive_types(T)]
pub struct ExDeque<T, const N: usize>(heapless::Deque<T, N>);

/// The detents that wait in a queue, the oldest first.
pub uninterp spec fn waiting(queue: heapless::Deque<EncoderEvent, 16>) -> Seq<EncoderEvent>;

/// `heapless::Deque::new`: nothing waits in a new queue.
#[verifier::external_body]
fn deque_new() -> (queue: heapless::Deque<EncoderEvent, 16>)
    ensures
        waiting(queue) == Seq::<EncoderEvent>::empty(),
{
    heapless::Deque::new()
}

/// `heapless::Deque::push_back`: appends the detent unless sixteen already
/// wait; a full queue is left as it is. Says whether the detent was appended.
#[verifier::external_body]
fn deque_push_back(queue: &mut heapless::Deque<EncoderEvent, 16>, event: EncoderEvent) -> (pushed:
    bool)
    ensures
        pushed == (waiting(*old(queue)).len() < 16),
        waiting(*final(queue)) == (if pushed {
            waiting(*old(queue)).push(event)
        } else {
            waiting(*old(queue))
        }),
{
    queue.push_back(event).is_ok()
}

/// `heapless::Deque::pop_front`: takes the oldest detent out, if any waits.
#[verifier::external_body]
fn deque_pop_front(queue: &mut heapless::Deque<EncoderEvent, 16>) -> (event: Option<EncoderEvent>)
    ensures
        match event {
            Some(found) => waiting(*old(queue)).len() > 0 && found == waiting(*old(queue))[0]
                && waiting(*final(queue)) == waiting(*old(queue)).skip(1),
            None => waiting(*old(queue)).len() == 0 && waiting(*final(queue)).len() == 0,
        },
{
    queue.pop_front()
}

/// The waiting detents, with counts of all that came and of those that found
/// the queue full.
pub struct EncoderQueue {
    pub events: heapless::Deque<EncoderEvent, 16>,
    pub edges: u32,
    pub drops: u32,
}

/// The successor of a wrapping counter.
pub open spec fn tallied(count: u32) -> u32 {
    crate::reducer::next_version(count)
}

/// `value + more`, kept in the range of a signed halfword.
pub open spec fn summed(value: int, more: int) -> int {
    crate::limits::clamped(value + more, -0x8000, 0x7fff)
}

/// What a run of detents makes of an accumulator and of the two sums.
pub open spec fn drained(
    accumulator: EncoderAccumulator,
    raw: int,
    accelerated: int,
    events: Seq<EncoderEvent>,
) -> (EncoderAccumulator, int, int)
    decreases events.len(),
{
    if events.len() == 0 {
        (accumulator, raw, accelerated)
    } else {
        let next = accumulator.after(events[0].direction, events[0].tick);
        drained(
            next,
            summed(raw, events[0].direction as int),
            summed(accelerated, events[0].direction * multiplier(next.velocity)),
            events.skip(1),
        )
    }
}

impl EncoderQueue {
    pub fn new() -> (queue: Self)
        ensures
            waiting(queue.events) == Seq::<EncoderEvent>::empty(),
            queue.edges == 0,
            queue.drops == 0,
    {
        EncoderQueue { events: deque_new(), edges: 0, drops: 0 }
    }

    /// Records one edge. A detent that finds the queue full is dropped and
    /// counted; those that wait are never disturbed.
    pub fn record(&mut self, event: EncoderEvent)
        ensures
            final(self).edges == tallied(old(self).edges),
            waiting(old(self).events).len() < ENCODER_QUEUE_CAPACITY ==> {
                &&& waiting(final(self).events) == waiting(old(self).events).push(event)
                &&& final(self).drops == old(self).drops
            },
            waiting(old(self).events).len() >= ENCODER_QUEUE_CAPACITY ==> {
                &&& waiting(final(self).events) == waiting(old(self).events)
                &&& final(self).drops == tallied(old(self).drops)
            },
    {
        let pushed: bool = deque_push_back(&mut self.events, event);
        self.edges = self.edges.wrapping_add(1);
        if !pushed {
            self.drops = self.drops.wrapping_add(1);
        }
    }

    /// The counts of edges and of dropped detents.
    pub fn encoder_counts(&self) -> (counts: (u32, u32))
        ensures
            counts == (self.edges, self.drops),
    {
        (self.edges, self.drops)
    }

    /// Takes all waiting detents, oldest first, and sums them up: single steps
    /// and accelerated ones.
    pub fn take_encoder_adjustment(&mut self, accumulator: &mut EncoderAccumulator) -> (steps: (
        i8,
        i8,
    ))
        ensures
            waiting(final(self).events).len() == 0,
            final(self).edges == old(self).edges,
            final(self).drops == old(self).drops,
            ({
                let (next, raw, accelerated) = drained(
                    *old(accumulator),
                    0,
                    0,
                    waiting(old(self).events),
                );
                &&& *final(accumulator) == next
                &&& steps.0 as int == byte_clamped(raw)
                &&& steps.1 as int == byte_clamped(accelerated)
            }),
    {
        let mut raw: i16 = 0;
        let mut accelerated: i16 = 0;
        let ghost start = *accumulator;
        let ghost all = waiting(self.events);
        loop
            invariant
                self.edges == old(self).edges,
                self.drops == old(self).drops,
                start == *old(accumulator),
                all == waiting(old(self).events),
                drained(start, 0, 0, all) == drained(
                    *accumulator,
                    raw as int,
                    accelerated as int,
                    waiting(self.events),
                ),
            ensures
                waiting(self.events).len() == 0,
            decreases waiting(self.events).len(),
        {
            let event = match deque_pop_front(&mut self.events) {
                Some(event) => event,
                None => {
                    break;
                },
            };
            let (event_raw, event_accelerated) = accumulator.step(event.direction, event.tick);
            raw = saturating_sum(raw, event_raw);
            accelerated = saturating_sum(accelerated, event_accelerated);
        }
        clamp_adjustment(raw, accelerated)
    }
}

fn saturating_sum(value: i16, more: i16) -> (sum: i16)
    ensures
        sum as int == summed(value as int, more as int),
{
    let wide: i32 = value as i32 + more as i32;
    if wide < -0x8000 {
        -0x8000
    } else if wide > 0x7fff {
        0x7fff
    } else {
        wide as i16
    }
}

} // verus!
