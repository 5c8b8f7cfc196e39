//! The queue between the encoder interrupt and the firmware loop.

use benchvolt_poc::encoder_queue::EncoderQueue;
use benchvolt_poc::input_policy::{encoder_direction, EncoderAccumulator, EncoderEvent};

#[test]
fn detents_are_summed_in_order() {
    let mut queue = EncoderQueue::new();
    let mut accumulator = EncoderAccumulator::default();
    for (direction, tick) in [(1, 1_000), (1, 1_020), (1, 1_040), (-1, 1_060)] {
        queue.record(EncoderEvent { direction, tick });
    }
    assert_eq!(queue.take_encoder_adjustment(&mut accumulator), (2, 1 + 2 + 2 - 1));
    assert_eq!(queue.take_encoder_adjustment(&mut accumulator), (0, 0));
    assert_eq!(queue.encoder_counts(), (4, 0));
}

#[test]
fn the_seventeenth_detent_is_dropped_and_counted() {
    let mut queue = EncoderQueue::new();
    let mut accumulator = EncoderAccumulator::default();
    for index in 0..17u16 {
        let direction = if index == 16 { -1 } else { 1 };
        queue.record(EncoderEvent { direction, tick: 10_000 + 200 * index });
    }
    assert_eq!(queue.encoder_counts(), (17, 1));
    assert_eq!(queue.take_encoder_adjustment(&mut accumulator), (16, 16));
    queue.record(EncoderEvent { direction: -1, tick: 20_000 });
    assert_eq!(queue.take_encoder_adjustment(&mut accumulator), (-1, -1));
    assert_eq!(queue.encoder_counts(), (18, 1));
}

#[test]
fn acceleration_is_clamped_to_a_byte() {
    let mut queue = EncoderQueue::new();
    let mut accumulator = EncoderAccumulator::default();
    for index in 0..16u16 {
        queue.record(EncoderEvent { direction: encoder_direction(false), tick: 500 + index });
    }
    let (raw, accelerated) = queue.take_encoder_adjustment(&mut accumulator);
    assert_eq!(raw, 16);
    assert_eq!(accelerated, 127);
}
