//! The joints of the car and the systems that drive them.

use vstd::prelude::*;

pub mod suspension;

verus! {

/// The tag of the joint between an upright and its wheel.
#[derive(Clone, Copy, Debug, PartialEq, Eq, Structural)]
pub struct WheelJoint {
    pub is_left: bool,
    pub is_front: bool,
}

/// The tag of the joint between the body and an upright.
#[derive(Clone, Copy, Debug, PartialEq, Eq, Structural)]
pub struct UprightJoint {
    pub is_left: bool,
    pub is_front: bool,
}

} // verus!
