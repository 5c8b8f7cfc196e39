//! The board: what its drivers say on the wires, and how they read the replies.

pub mod adc;
pub mod i2c;
pub mod power;
