//! The car: its measures, its tuning values and the tags of its parts.

use vstd::prelude::*;
use crate::fixed::trunc_div;
use crate::vector::{Vec3, Vector};

pub mod dynamics;
pub mod objects;

verus! {

/// The tag of an upright, the knuckle between the body and one wheel.
#[derive(Clone, Copy, Debug, PartialEq, Eq, Structural)]
pub struct Upright {
    pub is_left: bool,
    pub is_front: bool,
}

/// The values that can be tuned while the simulation runs.
#[derive(Clone, Copy, Debug, PartialEq, Eq, Structural)]
pub struct Configuration {
    /// The spin velocity asked of every wheel.
    pub wheel_vel: i32,
    /// The distance between an upright and its wheel.
    pub wheel_offset: i32,
    /// The distance by which an upright stands out from its mount.
    pub upright_offset: i32,
    /// The angle of the steered wheels, in degrees.
    pub steering_angle: i32,
    /// While this is `false` no joint is touched.
    pub enable_physics: bool,
}

impl Default for Configuration {
    fn default() -> (config: Configuration)
        ensures
            config == (Configuration {
                wheel_vel: 0,
                wheel_offset: 0,
                upright_offset: 0,
                steering_angle: 0,
                enable_physics: false,
            }),
    {
        Configuration {
            wheel_vel: 0,
            wheel_offset: 0,
            upright_offset: 0,
            steering_angle: 0,
            enable_physics: false,
        }
    }
}

/// The measures and masses of a car.
#[derive(Clone, Copy, Debug, PartialEq, Eq, Structural)]
pub struct CarSpecs {
    pub height: i32,
    pub width: i32,
    pub length: i32,
    pub wheel_half_height: i32,
    pub wheel_diameter: i32,
    pub wheel_offset: i32,
    pub mass: i32,
    pub wheel_mass: i32,
    pub upright_mass: i32,
}

impl Default for CarSpecs {
    fn default() -> (specs: CarSpecs)
        ensures
            specs == (CarSpecs {
                height: 950,
                width: 2000,
                length: 5500,
                wheel_half_height: 400,
                wheel_diameter: 720,
                wheel_offset: 200,
                mass: 796_000,
                wheel_mass: 2500,
                upright_mass: 2500,
            }),
    {
        CarSpecs {
            height: 950,
            length: 5500,
            width: 2000,
            wheel_half_height: 400,
            wheel_diameter: 720,
            wheel_offset: 200,
            mass: 796_000,
            wheel_mass: 2500,
            upright_mass: 2500,
        }
    }
}

/// How many wheels a car has.
pub const WHEEL_COUNT: usize = 4;

/// Whether the wheel with this number sits on the front axle: the first two do.
pub open spec fn wheel_is_front(wheel_num: int) -> bool {
    wheel_num / 2 == 0
}

/// Whether the wheel with this number sits on the left: the even ones do.
pub open spec fn wheel_is_left(wheel_num: int) -> bool {
    wheel_num % 2 == 0
}

/// Where the upright of wheel `wheel_num` is mounted, seen from the middle of the body: half
/// a width to its side, half a height down, three tenths of the length to the front or four
/// tenths to the rear.
pub open spec fn wheel_anchor(specs: CarSpecs, wheel_num: int) -> Vector {
    Vector {
        x: if wheel_is_left(wheel_num) {
            -trunc_div(specs.width as int, 2)
        } else {
            trunc_div(specs.width as int, 2)
        },
        y: -trunc_div(specs.height as int, 2),
        z: if wheel_is_front(wheel_num) {
            -trunc_div(3 * specs.length, 10)
        } else {
            trunc_div(4 * specs.length, 10)
        },
    }
}

impl CarSpecs {
    /// The mass of the body alone: the car's without its four wheels and uprights.
    pub open spec fn spec_body_mass(&self) -> int {
        self.mass - 4 * (self.wheel_mass + self.upright_mass)
    }

    /// The mass of the body alone: the car's without its four wheels and uprights.
    pub fn body_mass(&self) -> (mass: i64)
        ensures
            mass == self.spec_body_mass(),
    {
        self.mass as i64 - 4 * (self.wheel_mass as i64 + self.upright_mass as i64)
    }

    /// The four mounts of the uprights, by wheel number.
    pub fn wheel_anchors(&self) -> (anchors: [Vec3; 4])
        ensures
            forall|i: int| 0 <= i < 4 ==> (#[trigger] anchors[i])@ == wheel_anchor(*self, i),
    {
        let half_width: i32 = self.width / 2;
        let drop: i32 = -(self.height / 2);
        let front: i32 = (-((3 * (self.length as i64)) / 10)) as i32;
        let rear: i32 = ((4 * (self.length as i64)) / 10) as i32;
        [
            Vec3 { x: -half_width, y: drop, z: front },
            Vec3 { x: half_width, y: drop, z: front },
            Vec3 { x: -half_width, y: drop, z: rear },
            Vec3 { x: half_width, y: drop, z: rear },
        ]
    }
}

/// The mounts of a car mirror each other: the left one of an axle is the reflection of the
/// right one. Where the car is at least two thousandths wide, so that half its width is not
/// rounded to nothing, the left mount lies to the left of the middle and the right one to
/// its right.
pub proof fn lemma_wheel_anchors_mirror(specs: CarSpecs, axle: int)
    requires
        0 <= axle < 2,
    ensures
        wheel_anchor(specs, 2 * axle) == wheel_anchor(specs, 2 * axle + 1).reflected(),
        specs.width >= 2 ==> wheel_anchor(specs, 2 * axle).x < 0 < wheel_anchor(
            specs,
            2 * axle + 1,
        ).x,
        wheel_is_left(2 * axle) && !wheel_is_left(2 * axle + 1),
        wheel_is_front(2 * axle) == wheel_is_front(2 * axle + 1),
{
}

} // verus!
