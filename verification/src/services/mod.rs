//! What the scene needs besides the car.

pub mod assets;
