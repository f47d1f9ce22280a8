//! Suspension and steering joints of a four-wheel car.
//!
//! The crate computes where the uprights and wheels of a car stand, which joints hold them
//! to the body, and what the motors of those joints are told on every frame. It owns no
//! physics engine and no scene: it hands out plain descriptions, which a host program
//! turns into rigid bodies and constraints, and plain updates, which the host applies to the
//! joints it has made.
//!
//! - [`fixed`]: the fixed-point numbers that every quantity is given in.
//! - [`vector`]: vectors, points and rotations.
//! - [`joint`]: joints, the sets of their axes, and updates to joints.
//! - [`car`]: the measures of the car, its wheel positions, the joints of its suspension
//!   and the systems that steer and drive it.
//! - [`plugins`]: the settings of the scene and the player's controls.
//! - [`services`]: the fonts of the scene.
//!
//! Left and right mirror each other throughout: what is given to one side with one sign is
//! given to the other side with the other sign.

pub mod fixed;
pub mod vector;
pub mod joint;
pub mod car;
pub mod plugins;
pub mod services;
