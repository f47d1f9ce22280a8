//! What the scene is set up with: the camera, the player's controls and the groups by which
//! bodies collide.

use vstd::prelude::*;

pub mod controls;

verus! {

/// How the camera of the main scene behaves.
#[derive(Clone, Copy, Debug, PartialEq, Eq, Structural)]
pub enum CameraType {
    /// The camera stays where it is and keeps looking at the body of the car.
    Follow,
    /// The camera is flown about by the player.
    Fly,
}

/// The main scene and the camera it is seen through.
#[derive(Clone, Copy, Debug, PartialEq, Eq, Structural)]
pub struct MainScenePlugin {
    pub camera_type: CameraType,
}

impl MainScenePlugin {
    /// Whether the camera is to be turned toward the body of the car on every frame.
    pub fn follows_body(&self) -> (r: bool)
        ensures
            r == (self.camera_type is Follow),
    {
        match self.camera_type {
            CameraType::Follow => true,
            CameraType::Fly => false,
        }
    }
}

/// The group of the ground and of what stands on it.
pub const GROUP_SURFACE: u32 = 0b01;

/// The group of the body of the car.
pub const GROUP_BODY: u32 = 0b10;

/// The group of the wheels.
pub const GROUP_WHEEL: u32 = 0b100;

/// The groups that a body belongs to and the groups that it collides with.
#[derive(Clone, Copy, Debug, PartialEq, Eq, Structural)]
pub struct CollisionGroups {
    pub memberships: u32,
    pub filters: u32,
}

} // verus!
