//! The parts that a car is built of.

pub mod wheels;
