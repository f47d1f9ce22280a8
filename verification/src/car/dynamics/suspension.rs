//! The joints of the suspension and the systems that drive them.
//!
//! Each wheel hangs on two joints. The first holds the upright to the body: it lets the
//! upright travel up and down and, on a steered axle, turn about the vertical. The second
//! holds the wheel to the upright and lets it spin. The first axis of both joints' frames is
//! laid along the direction in which the joint moves, so the travel of the suspension is
//! [`JointAxis::X`] of the first joint, the steering is its [`JointAxis::AngX`], and the spin
//! of the wheel is [`JointAxis::AngX`] of the second.

use vstd::prelude::*;
use crate::fixed::{div_toward_zero, half, halve, mirror, mirrored, trunc_div};
use crate::joint::{
    after_rounds, lemma_rounds_idempotent, lemma_rounds_of_none, AxisLimits, GenericJoint,
    JointAxesMask, JointAxis, JointMotor, JointUpdate, MotorPosition, MotorVelocity,
};
use crate::car::dynamics::{UprightJoint, WheelJoint};
use crate::car::Configuration;
use crate::plugins::controls::ControlsState;
use crate::vector::{Point3, Rotation, Vec3, Vector};

verus! {

/// The widest angle to which a steered wheel is turned to one side, in degrees.
pub const MAX_STEERING_ANGLE: i64 = 45_000;

/// The widest angle to which a steered wheel is turned to the other side, in degrees.
pub const MIN_STEERING_ANGLE: i64 = -45_000;

/// The stiffness with which a steering motor tracks its angle.
pub const STEERING_STIFFNESS: i64 = 1_000_000_000;

/// The damping with which a steering motor tracks its angle.
pub const STEERING_DAMPING: i64 = 100_000_000;

/// The degrees of freedom that the joint between body and upright takes away: everything
/// but the travel of the suspension and, unless `lock_direction`, the steering.
pub open spec fn upright_locked_axes(lock_direction: bool) -> Set<JointAxis> {
    if lock_direction {
        set![JointAxis::Y, JointAxis::Z, JointAxis::AngX, JointAxis::AngY, JointAxis::AngZ]
    } else {
        set![JointAxis::Y, JointAxis::Z, JointAxis::AngY, JointAxis::AngZ]
    }
}

/// Whether `joint` is the joint that holds an upright to the body at `anchor`, with the
/// upright standing out by the signed `offset`, its travel kept between `lowest` and
/// `highest`, and its steering locked or not.
pub open spec fn is_upright_chasis_joint(
    joint: GenericJoint,
    anchor: Vector,
    offset: int,
    lowest: int,
    highest: int,
    lock_direction: bool,
) -> bool {
    &&& joint.locked_axes@ == upright_locked_axes(lock_direction)
    &&& joint.local_axis1 == Vec3::spec_unit_y()
    &&& joint.local_axis2 == Vec3::spec_unit_y()
    &&& joint.local_basis1 is None
    &&& joint.local_anchor1@ == anchor
    &&& joint.local_anchor2@ == (Vector { x: -offset, y: 0, z: 0 })
    &&& joint.linear_limits matches Some(limits)
    &&& limits.axis == JointAxis::X
    &&& limits.min == lowest
    &&& limits.max == highest
    &&& joint.angular_limits == if lock_direction {
        None
    } else {
        Some(
            AxisLimits {
                axis: JointAxis::AngX,
                min: MIN_STEERING_ANGLE,
                max: MAX_STEERING_ANGLE,
            },
        )
    }
    &&& joint.motor == if lock_direction {
        None
    } else {
        Some(
            JointMotor {
                axis: JointAxis::AngX,
                target_pos: 0,
                target_vel: 0,
                stiffness: STEERING_STIFFNESS,
                damping: STEERING_DAMPING,
            },
        )
    }
    &&& !joint.contacts_enabled
}

/// The joint that holds an upright to the body.
///
/// The body holds it at `anchor`; the upright holds it at `-offset` along `x`, so that the
/// upright stands the signed `offset` beside its mount. The upright travels along the
/// vertical within `suspension_limits`. With `lock_direction` it cannot turn at all;
/// without, it steers about the vertical, between [`MIN_STEERING_ANGLE`] and
/// [`MAX_STEERING_ANGLE`], and a motor holds it straight until it is told another angle. The
/// body and the upright do not collide.
pub fn make_front_upright_chasis_joint(
    anchor: Vec3,
    offset: i32,
    suspension_limits: [i32; 2],
    lock_direction: bool,
) -> (joint: GenericJoint)
    ensures
        is_upright_chasis_joint(
            joint,
            anchor@,
            offset as int,
            suspension_limits[0] as int,
            suspension_limits[1] as int,
            lock_direction,
        ),
{
    let always_locked = JointAxesMask::single(JointAxis::Y).with(JointAxis::Z).with(
        JointAxis::AngY,
    ).with(JointAxis::AngZ);
    let locked_axes = if lock_direction {
        always_locked.with(JointAxis::AngX)
    } else {
        always_locked
    };
    proof {
        assert(locked_axes@ =~= upright_locked_axes(lock_direction));
    }
    let mut joint = GenericJoint {
        locked_axes,
        local_axis1: Vec3::unit_y(),
        local_axis2: Vec3::unit_y(),
        local_basis1: None,
        local_anchor1: anchor.widen(),
        local_anchor2: Point3::new(-(offset as i64), 0, 0),
        linear_limits: Some(
            AxisLimits {
                axis: JointAxis::X,
                min: suspension_limits[0] as i64,
                max: suspension_limits[1] as i64,
            },
        ),
        angular_limits: None,
        motor: None,
        contacts_enabled: true,
    };
    if !lock_direction {
        joint.angular_limits = Some(
            AxisLimits {
                axis: JointAxis::AngX,
                min: MIN_STEERING_ANGLE,
                max: MAX_STEERING_ANGLE,
            },
        );
        joint.motor = Some(
            JointMotor {
                axis: JointAxis::AngX,
                target_pos: 0,
                target_vel: 0,
                stiffness: STEERING_STIFFNESS,
                damping: STEERING_DAMPING,
            },
        );
    }
    joint.contacts_enabled = false;
    joint
}

/// The rotations that a joint leaves free.
pub open spec fn free_rotations(joint: GenericJoint) -> Set<JointAxis> {
    Set::new(|axis: JointAxis| axis.is_angular() && joint.is_free(axis))
}

/// Of the joint between body and upright: the suspension travels freely, the only rotation
/// that can be free is the steering, and it is free exactly when the joint was made without
/// `lock_direction`; it then is kept within forty-five degrees to either side.
pub proof fn lemma_upright_joint_freedom(
    joint: GenericJoint,
    anchor: Vector,
    offset: int,
    lowest: int,
    highest: int,
    lock_direction: bool,
)
    requires
        is_upright_chasis_joint(joint, anchor, offset, lowest, highest, lock_direction),
    ensures
        joint.is_free(JointAxis::X),
        joint.is_locked(JointAxis::Y) && joint.is_locked(JointAxis::Z),
        forall|axis: JointAxis|
            axis.is_angular() ==> (#[trigger] joint.is_free(axis) <==> (!lock_direction && axis
                == JointAxis::AngX)),
        free_rotations(joint) == if lock_direction {
            Set::<JointAxis>::empty()
        } else {
            set![JointAxis::AngX]
        },
        free_rotations(joint).len() == if lock_direction {
            0nat
        } else {
            1nat
        },
        !lock_direction ==> joint.angular_limits == Some(
            AxisLimits { axis: JointAxis::AngX, min: -45_000i64, max: 45_000i64 },
        ),
        lock_direction ==> joint.angular_limits is None && joint.motor is None,
{
    let free = free_rotations(joint);
    if lock_direction {
        assert(free =~= Set::<JointAxis>::empty());
    } else {
        assert(free =~= set![JointAxis::AngX]);
    }
}

/// The degrees of freedom that the joint between upright and wheel takes away: everything
/// but the spin of the wheel.
pub open spec fn wheel_locked_axes() -> Set<JointAxis> {
    set![JointAxis::X, JointAxis::Y, JointAxis::Z, JointAxis::AngY, JointAxis::AngZ]
}

/// Whether `joint` is the joint that holds a wheel to its upright, `abs_offset` apart, on
/// the given side.
pub open spec fn is_upright_wheel_joint(
    joint: GenericJoint,
    abs_offset: int,
    is_left: bool,
) -> bool {
    &&& joint.locked_axes@ == wheel_locked_axes()
    &&& joint.local_axis1 == if is_left {
        Vec3::spec_neg_unit_x()
    } else {
        Vec3::spec_unit_x()
    }
    &&& joint.local_axis2 == Vec3::spec_neg_unit_y()
    &&& joint.local_basis1 == Some(
        Rotation::AxisAngle {
            axis: Vec3::spec_unit_y(),
            angle: if is_left {
                0i32
            } else {
                180_000i32
            },
        },
    )
    &&& joint.local_anchor1@ == (Vector { x: half(mirrored(is_left, abs_offset)), y: 0, z: 0 })
    &&& joint.local_anchor2@ == (Vector { x: 0, y: -half(abs_offset), z: 0 })
    &&& joint.linear_limits is None
    &&& joint.angular_limits is None
    &&& joint.motor is None
    &&& !joint.contacts_enabled
}

/// The joint that holds a wheel to its upright.
///
/// Nothing but the spin of the wheel is left free. The upright holds the joint half of
/// `abs_offset` to its outside, the wheel holds it half of `abs_offset` down its own axle,
/// which is the side of the upright for the wheel of either side. The frame on the upright's
/// side is turned half round on the right-hand side, so that one sign of spin drives both
/// wheels the same way. The upright and the wheel do not collide.
pub fn make_upright_wheel_joint(abs_offset: i32, is_left: bool) -> (joint: GenericJoint)
    ensures
        is_upright_wheel_joint(joint, abs_offset as int, is_left),
{
    let offset: i64 = mirror(is_left, abs_offset);
    let all_translations = JointAxesMask::single(JointAxis::X).with(JointAxis::Y).with(
        JointAxis::Z,
    );
    let locked_axes = all_translations.with(JointAxis::AngY).with(JointAxis::AngZ);
    proof {
        assert(locked_axes@ =~= wheel_locked_axes());
    }
    let mut joint = GenericJoint {
        locked_axes,
        local_axis1: if is_left {
            Vec3::neg_unit_x()
        } else {
            Vec3::unit_x()
        },
        local_axis2: Vec3::neg_unit_y(),
        local_basis1: Some(
            Rotation::AxisAngle {
                axis: Vec3::unit_y(),
                angle: if is_left {
                    0
                } else {
                    180_000
                },
            },
        ),
        local_anchor1: Point3::new(halve(offset), 0, 0),
        local_anchor2: Point3::new(0, -halve(abs_offset as i64), 0),
        linear_limits: None,
        angular_limits: None,
        motor: None,
        contacts_enabled: true,
    };
    joint.contacts_enabled = false;
    joint
}

/// Of the joint between upright and wheel: the spin is its only freedom, and what it holds
/// on the left is the mirror image of what it holds on the right.
pub proof fn lemma_wheel_joint_mirror(left: GenericJoint, right: GenericJoint, abs_offset: int)
    requires
        is_upright_wheel_joint(left, abs_offset, true),
        is_upright_wheel_joint(right, abs_offset, false),
    ensures
        forall|axis: JointAxis| #[trigger] left.is_free(axis) <==> axis == JointAxis::AngX,
        forall|axis: JointAxis| #[trigger] right.is_free(axis) <==> axis == JointAxis::AngX,
        left.local_axis1@ == right.local_axis1@.negated(),
        left.local_anchor1@ == right.local_anchor1@.negated(),
        left.local_anchor2 == right.local_anchor2,
        left.local_axis2 == right.local_axis2,
{
}

/// The angle through which the steered wheels turn from one lock to the other, in degrees.
pub const TURNING_DEGREES: i32 = 90_000;

/// The angle through which the steering wheel turns from one lock to the other, in degrees.
pub const STEERING_WHEEL_DEGREES_RANGE: i32 = 900_000;

/// Thousandths of spin velocity asked of the driven wheels for each thousandth by which the
/// accelerator is pressed: pressed all the way it asks for a thousand units.
pub const ACCELERATOR_GAIN: i64 = 1000;

/// The factor by which a drive motor pulls toward its velocity: one.
pub const DRIVE_FACTOR: i64 = 1000;

/// The angle of the steered wheels for an angle of the steering wheel, where the steering
/// wheel turns through `range` while the wheels turn through `turning`. The one range is
/// laid on the other, middle on middle and lock on lock: the angle of the steering wheel is
/// counted from its one lock, brought into proportion, and counted back from the lock of the
/// wheels. The two halves cancel (see [`lemma_steering_from_lock_to_lock`]), which leaves the
/// proportion of the angle itself.
pub open spec fn steering_angle(turning: int, range: int, steering_wheel_degrees: int) -> int
    recommends
        range > 0,
{
    trunc_div(turning * steering_wheel_degrees, range)
}

/// How the angle of the steering wheel is turned into the angle of the steered wheels.
#[derive(Clone, Copy, Debug, PartialEq, Eq, Structural)]
pub struct SteeringMap {
    /// The angle through which the steered wheels turn from one lock to the other.
    pub turning_degrees: i32,
    /// The angle through which the steering wheel turns from one lock to the other. A map
    /// whose range is not positive maps nothing.
    pub steering_wheel_degrees_range: i32,
}

impl Default for SteeringMap {
    fn default() -> (map: SteeringMap)
        ensures
            map == (SteeringMap {
                turning_degrees: TURNING_DEGREES,
                steering_wheel_degrees_range: STEERING_WHEEL_DEGREES_RANGE,
            }),
    {
        SteeringMap {
            turning_degrees: TURNING_DEGREES,
            steering_wheel_degrees_range: STEERING_WHEEL_DEGREES_RANGE,
        }
    }
}

impl SteeringMap {
    /// The angle of the steered wheels for an angle of the steering wheel, or `None` where
    /// the range of the steering wheel has no width.
    pub fn angle(&self, steering_wheel_degrees: i32) -> (angle: Option<i64>)
        ensures
            self.steering_wheel_degrees_range > 0 ==> angle == Some(
                steering_angle(
                    self.turning_degrees as int,
                    self.steering_wheel_degrees_range as int,
                    steering_wheel_degrees as int,
                ) as i64,
            ),
            self.steering_wheel_degrees_range <= 0 ==> angle is None,
    {
        if self.steering_wheel_degrees_range <= 0 {
            return None;
        }
        let turning: i64 = self.turning_degrees as i64;
        let degrees: i64 = steering_wheel_degrees as i64;
        let range: i64 = self.steering_wheel_degrees_range as i64;
        proof {
            lemma_steering_angle_fits(turning as int, range as int, degrees as int);
        }
        Some(div_toward_zero(turning * degrees, range))
    }
}

/// With 32-bit inputs the angle of the steered wheels and the product it is computed from
/// fit 64 bits.
pub proof fn lemma_steering_angle_fits(turning: int, range: int, steering_wheel_degrees: int)
    requires
        i32::MIN <= turning <= i32::MAX,
        i32::MIN <= steering_wheel_degrees <= i32::MAX,
        0 < range,
    ensures
        -0x4000_0000_0000_0000 <= turning * steering_wheel_degrees <= 0x4000_0000_0000_0000,
        -0x4000_0000_0000_0000 <= steering_angle(turning, range, steering_wheel_degrees)
            <= 0x4000_0000_0000_0000,
{
    let product = turning * steering_wheel_degrees;
    assert(-0x4000_0000_0000_0000 <= product <= 0x4000_0000_0000_0000) by (nonlinear_arith)
        requires
            product == turning * steering_wheel_degrees,
            -0x8000_0000 <= turning <= 0x7fff_ffff,
            -0x8000_0000 <= steering_wheel_degrees <= 0x7fff_ffff,
    ;
    crate::fixed::lemma_trunc_div_bounds(product, range);
    let q = trunc_div(product, range);
    if product >= 0 {
        assert(0 <= q <= product) by (nonlinear_arith)
            requires
                product - range < q * range <= product,
                range >= 1,
                product >= 0,
        ;
    } else {
        assert(product <= q <= 0) by (nonlinear_arith)
            requires
                product <= q * range < product + range,
                range >= 1,
                product < 0,
        ;
    }
}

/// Where both ranges have a whole half, the angle of the steered wheels is what is got by
/// counting the angle of the steering wheel from its lock, half a range below its middle,
/// and the angle of the wheels from theirs, half a turning below their middle.
pub proof fn lemma_steering_from_lock_to_lock(turning: int, range: int, steering_wheel_degrees: int)
    requires
        range > 0,
        range % 2 == 0,
        turning % 2 == 0,
    ensures
        steering_angle(turning, range, steering_wheel_degrees) == trunc_div(
            turning * (steering_wheel_degrees + range / 2) - (turning / 2) * range,
            range,
        ),
{
    let half_range = range / 2;
    let half_turning = turning / 2;
    assert(turning * (steering_wheel_degrees + half_range) - half_turning * range == turning
        * steering_wheel_degrees) by (nonlinear_arith)
        requires
            range == 2 * half_range,
            turning == 2 * half_turning,
    ;
}

/// Turning the steering wheel as far to the other side turns the wheels as far to the other
/// side, and a steering wheel held straight holds the wheels straight.
pub proof fn lemma_steering_angle_odd(turning: int, range: int, steering_wheel_degrees: int)
    requires
        range > 0,
    ensures
        steering_angle(turning, range, -steering_wheel_degrees) == -steering_angle(
            turning,
            range,
            steering_wheel_degrees,
        ),
        steering_angle(turning, range, 0) == 0,
{
    assert(turning * (-steering_wheel_degrees) == -(turning * steering_wheel_degrees))
        by (nonlinear_arith);
    assert(turning * 0 == 0) by (nonlinear_arith);
    crate::fixed::lemma_trunc_div_odd(turning * steering_wheel_degrees, range);
    crate::fixed::lemma_trunc_div_odd(0, range);
}

/// The angle of the steered wheels of this car for an angle of its steering wheel.
pub open spec fn spec_steering_to_angle(steering_wheel_degrees: int) -> int {
    steering_angle(
        TURNING_DEGREES as int,
        STEERING_WHEEL_DEGREES_RANGE as int,
        steering_wheel_degrees,
    )
}

/// The angle of the steered wheels for an angle of the steering wheel: the range from -450
/// to 450 degrees of the one is laid on the range from -45 to 45 degrees of the other, which
/// is a tenth of the angle.
pub fn steering_to_angle(steering_wheel_degrees: i32) -> (angle: i64)
    ensures
        angle == spec_steering_to_angle(steering_wheel_degrees as int),
        angle == trunc_div(steering_wheel_degrees as int, 10),
{
    proof {
        lemma_steering_is_a_tenth(steering_wheel_degrees as int);
    }
    div_toward_zero(steering_wheel_degrees as i64, 10)
}

/// With the ranges of this car the angle of the steered wheels is a tenth of the angle of
/// the steering wheel.
pub proof fn lemma_steering_is_a_tenth(steering_wheel_degrees: int)
    ensures
        spec_steering_to_angle(steering_wheel_degrees) == trunc_div(steering_wheel_degrees, 10),
{
    let s = steering_wheel_degrees;
    if s >= 0 {
        vstd::arithmetic::div_mod::lemma_div_denominator(90_000 * s, 90_000, 10);
        vstd::arithmetic::div_mod::lemma_div_multiples_vanish(s, 90_000);
        assert((90_000 * s) / 90_000 == s) by {
            assert(90_000 * s == s * 90_000);
        }
        assert(90_000 * 10 == 900_000);
    } else {
        let m = -s;
        vstd::arithmetic::div_mod::lemma_div_denominator(90_000 * m, 90_000, 10);
        vstd::arithmetic::div_mod::lemma_div_multiples_vanish(m, 90_000);
        assert((90_000 * m) / 90_000 == m) by {
            assert(90_000 * m == m * 90_000);
        }
        assert(-(90_000 * s) == 90_000 * m);
    }
}

/// Of the steering of this car: it is odd, it holds the wheels straight for a steering wheel
/// held straight, and it turns them to a lock for a steering wheel at its lock.
pub proof fn lemma_steering_to_angle_odd(steering_wheel_degrees: int)
    ensures
        spec_steering_to_angle(-steering_wheel_degrees) == -spec_steering_to_angle(
            steering_wheel_degrees,
        ),
        spec_steering_to_angle(0) == 0,
        spec_steering_to_angle(450_000) == 45_000,
        spec_steering_to_angle(-450_000) == -45_000,
        -450_000 <= steering_wheel_degrees <= 450_000 ==> MIN_STEERING_ANGLE
            <= spec_steering_to_angle(steering_wheel_degrees) <= MAX_STEERING_ANGLE,
{
    lemma_steering_is_a_tenth(steering_wheel_degrees);
    lemma_steering_is_a_tenth(-steering_wheel_degrees);
    lemma_steering_is_a_tenth(0);
    lemma_steering_is_a_tenth(450_000);
    lemma_steering_is_a_tenth(-450_000);
}

/// The spin velocity asked of a wheel: `wheel_vel` on the right and its negation on the
/// left, so that the car moves one way.
pub fn drive_velocity(is_left: bool, wheel_vel: i32) -> (velocity: i64)
    ensures
        velocity == mirrored(is_left, wheel_vel as int),
        velocity == if is_left {
            -wheel_vel
        } else {
            wheel_vel as int
        },
{
    mirror(is_left, wheel_vel)
}

/// What a steering system tells the joint of one upright: where the systems run and the
/// upright belongs to the front axle, the motor of the steering is to track `angle`;
/// otherwise nothing. The angle is in degrees, as all angles are here; the physics may want
/// it in another measure, which is for the host to see to.
pub open spec fn steering_update(
    enable_physics: bool,
    upright_joint: UprightJoint,
    angle: int,
) -> JointUpdate {
    if enable_physics && upright_joint.is_front {
        JointUpdate {
            motor_velocity: None,
            motor_position: Some(
                MotorPosition {
                    axis: JointAxis::AngX,
                    target_pos: angle as i64,
                    stiffness: STEERING_STIFFNESS,
                    damping: STEERING_DAMPING,
                },
            ),
            local_anchor1: None,
            local_anchor2: None,
        }
    } else {
        JointUpdate::spec_none()
    }
}

/// What a drive system tells the joint of one wheel that it drives: its motor is to reach
/// `velocity` on the right and the negation of `velocity` on the left.
pub open spec fn drive_motor(is_left: bool, velocity: int) -> MotorVelocity {
    MotorVelocity {
        axis: JointAxis::AngX,
        target_vel: mirrored(is_left, velocity) as i64,
        factor: DRIVE_FACTOR,
    }
}

/// What the rear axle's drive tells the joint of one wheel: where the systems run and the
/// wheel belongs to the rear axle, to spin as fast as the accelerator asks; otherwise
/// nothing.
pub open spec fn rear_axle_motor_update(
    config: Configuration,
    controls: ControlsState,
    wheel_joint: WheelJoint,
) -> JointUpdate {
    if config.enable_physics && !wheel_joint.is_front {
        JointUpdate {
            motor_velocity: Some(
                drive_motor(wheel_joint.is_left, controls.accelerator * ACCELERATOR_GAIN),
            ),
            motor_position: None,
            local_anchor1: None,
            local_anchor2: None,
        }
    } else {
        JointUpdate::spec_none()
    }
}

/// What the tuning of the upright offset tells the joint of one upright: where the systems
/// run, the upright is held `upright_offset` from its middle toward the middle of the car,
/// which is to its right on the left-hand side and to its left on the right-hand side;
/// otherwise nothing.
pub open spec fn upright_offset_update(
    config: Configuration,
    upright_joint: UprightJoint,
) -> JointUpdate {
    if config.enable_physics {
        JointUpdate {
            motor_velocity: None,
            motor_position: None,
            local_anchor1: None,
            local_anchor2: Some(
                Point3 {
                    x: mirrored(!upright_joint.is_left, config.upright_offset as int) as i64,
                    y: 0,
                    z: 0,
                },
            ),
        }
    } else {
        JointUpdate::spec_none()
    }
}

/// What the tuning of the wheels tells the joint of one wheel: where the systems run, to
/// spin at `wheel_vel`, one way on the right and the other way on the left, and to hold
/// upright and wheel `wheel_offset` apart, each at half of it; otherwise nothing.
pub open spec fn wheel_offset_and_motor_update(
    config: Configuration,
    wheel_joint: WheelJoint,
) -> JointUpdate {
    if config.enable_physics {
        JointUpdate {
            motor_velocity: Some(drive_motor(wheel_joint.is_left, config.wheel_vel as int)),
            motor_position: None,
            local_anchor1: Some(
                Point3 {
                    x: half(mirrored(wheel_joint.is_left, config.wheel_offset as int)) as i64,
                    y: 0,
                    z: 0,
                },
            ),
            local_anchor2: Some(
                Point3 { x: 0, y: (-half(config.wheel_offset as int)) as i64, z: 0 },
            ),
        }
    } else {
        JointUpdate::spec_none()
    }
}

fn steer(enable_physics: bool, upright_joint: &UprightJoint, angle: i64) -> (update: JointUpdate)
    ensures
        update == steering_update(enable_physics, *upright_joint, angle as int),
{
    if enable_physics && upright_joint.is_front {
        JointUpdate {
            motor_velocity: None,
            motor_position: Some(
                MotorPosition {
                    axis: JointAxis::AngX,
                    target_pos: angle,
                    stiffness: STEERING_STIFFNESS,
                    damping: STEERING_DAMPING,
                },
            ),
            local_anchor1: None,
            local_anchor2: None,
        }
    } else {
        JointUpdate::none()
    }
}

/// Drives the rear axle: the joint of every rear wheel is told to spin as fast as the
/// accelerator asks, one way on the left and the other way on the right. The result holds
/// one update for each joint of `wheel_joints`, in their order; for a front wheel, and for
/// every wheel while `enable_physics` is off, it is the update that changes nothing.
pub fn system_rear_axle_motor(
    config: &Configuration,
    controls: &ControlsState,
    wheel_joints: &Vec<WheelJoint>,
) -> (updates: Vec<JointUpdate>)
    ensures
        updates@.len() == wheel_joints@.len(),
        forall|i: int|
            0 <= i < updates@.len() ==> #[trigger] updates@[i] == rear_axle_motor_update(
                *config,
                *controls,
                wheel_joints@[i],
            ),
        !config.enable_physics ==> forall|i: int|
            0 <= i < updates@.len() ==> (#[trigger] updates@[i]).is_none(),
{
    let mut updates: Vec<JointUpdate> = Vec::new();
    let mut i: usize = 0;
    while i < wheel_joints.len()
        invariant
            i <= wheel_joints@.len(),
            updates@.len() == i,
            forall|k: int|
                0 <= k < i ==> #[trigger] updates@[k] == rear_axle_motor_update(
                    *config,
                    *controls,
                    wheel_joints@[k],
                ),
        decreases wheel_joints@.len() - i,
    {
        let wheel_joint = &wheel_joints[i];
        let update = if config.enable_physics && !wheel_joint.is_front {
            assert(ACCELERATOR_GAIN == 1000);
            let speed: i64 = controls.accelerator as i64 * ACCELERATOR_GAIN;
            let vel: i64 = if wheel_joint.is_left {
                -speed
            } else {
                speed
            };
            JointUpdate {
                motor_velocity: Some(
                    MotorVelocity { axis: JointAxis::AngX, target_vel: vel, factor: DRIVE_FACTOR },
                ),
                motor_position: None,
                local_anchor1: None,
                local_anchor2: None,
            }
        } else {
            JointUpdate::none()
        };
        updates.push(update);
        i += 1;
    }
    updates
}

/// Steers by the steering wheel: the joint of every front upright is told to track the angle
/// that [`steering_to_angle`] gives for the steering wheel. The result holds one update for
/// each joint of `upright_joints`, in their order; for a rear upright, and for every upright
/// while `enable_physics` is off, it is the update that changes nothing.
pub fn system_update_upright_steering(
    config: &Configuration,
    controls: &ControlsState,
    upright_joints: &Vec<UprightJoint>,
) -> (updates: Vec<JointUpdate>)
    ensures
        updates@.len() == upright_joints@.len(),
        forall|i: int|
            0 <= i < updates@.len() ==> #[trigger] updates@[i] == steering_update(
                config.enable_physics,
                upright_joints@[i],
                spec_steering_to_angle(controls.steering_wheel_degrees as int),
            ),
        !config.enable_physics ==> forall|i: int|
            0 <= i < updates@.len() ==> (#[trigger] updates@[i]).is_none(),
{
    let angle = steering_to_angle(controls.steering_wheel_degrees);
    let mut updates: Vec<JointUpdate> = Vec::new();
    let mut i: usize = 0;
    while i < upright_joints.len()
        invariant
            i <= upright_joints@.len(),
            updates@.len() == i,
            angle == spec_steering_to_angle(controls.steering_wheel_degrees as int),
            forall|k: int|
                0 <= k < i ==> #[trigger] updates@[k] == steering_update(
                    config.enable_physics,
                    upright_joints@[k],
                    angle as int,
                ),
        decreases upright_joints@.len() - i,
    {
        updates.push(steer(config.enable_physics, &upright_joints[i], angle));
        i += 1;
    }
    updates
}

/// Steers by the tuned angle: the joint of every front upright is told to track
/// `steering_angle`. The result holds one update for each joint of `upright_joints`, in
/// their order; for a rear upright, and for every upright while `enable_physics` is off, it
/// is the update that changes nothing.
pub fn system_steering(
    config: &Configuration,
    upright_joints: &Vec<UprightJoint>,
) -> (updates: Vec<JointUpdate>)
    ensures
        updates@.len() == upright_joints@.len(),
        forall|i: int|
            0 <= i < updates@.len() ==> #[trigger] updates@[i] == steering_update(
                config.enable_physics,
                upright_joints@[i],
                config.steering_angle as int,
            ),
        !config.enable_physics ==> forall|i: int|
            0 <= i < updates@.len() ==> (#[trigger] updates@[i]).is_none(),
{
    let mut updates: Vec<JointUpdate> = Vec::new();
    let mut i: usize = 0;
    while i < upright_joints.len()
        invariant
            i <= upright_joints@.len(),
            updates@.len() == i,
            forall|k: int|
                0 <= k < i ==> #[trigger] updates@[k] == steering_update(
                    config.enable_physics,
                    upright_joints@[k],
                    config.steering_angle as int,
                ),
        decreases upright_joints@.len() - i,
    {
        let angle: i64 = config.steering_angle as i64;
        updates.push(steer(config.enable_physics, &upright_joints[i], angle));
        i += 1;
    }
    updates
}

/// Tunes the upright offset: the joint of every upright is told where to hold its upright.
/// The result holds one update for each joint of `upright_joints`, in their order; while
/// `enable_physics` is off it is the update that changes nothing.
pub fn system_upright_offset(
    config: &Configuration,
    upright_joints: &Vec<UprightJoint>,
) -> (updates: Vec<JointUpdate>)
    ensures
        updates@.len() == upright_joints@.len(),
        forall|i: int|
            0 <= i < updates@.len() ==> #[trigger] updates@[i] == upright_offset_update(
                *config,
                upright_joints@[i],
            ),
        !config.enable_physics ==> forall|i: int|
            0 <= i < updates@.len() ==> (#[trigger] updates@[i]).is_none(),
{
    let mut updates: Vec<JointUpdate> = Vec::new();
    let mut i: usize = 0;
    while i < upright_joints.len()
        invariant
            i <= upright_joints@.len(),
            updates@.len() == i,
            forall|k: int|
                0 <= k < i ==> #[trigger] updates@[k] == upright_offset_update(
                    *config,
                    upright_joints@[k],
                ),
        decreases upright_joints@.len() - i,
    {
        let upright_joint = &upright_joints[i];
        let update = if config.enable_physics {
            let x: i64 = if upright_joint.is_left {
                config.upright_offset as i64
            } else {
                -(config.upright_offset as i64)
            };
            JointUpdate {
                motor_velocity: None,
                motor_position: None,
                local_anchor1: None,
                local_anchor2: Some(Point3::new(x, 0, 0)),
            }
        } else {
            JointUpdate::none()
        };
        updates.push(update);
        i += 1;
    }
    updates
}

/// Tunes the wheels: the joint of every wheel is told how fast to spin and where to hold
/// upright and wheel. The result holds one update for each joint of `wheel_joints`, in their
/// order; while `enable_physics` is off it is the update that changes nothing.
pub fn system_wheel_offset_and_motor(
    config: &Configuration,
    wheel_joints: &Vec<WheelJoint>,
) -> (updates: Vec<JointUpdate>)
    ensures
        updates@.len() == wheel_joints@.len(),
        forall|i: int|
            0 <= i < updates@.len() ==> #[trigger] updates@[i] == wheel_offset_and_motor_update(
                *config,
                wheel_joints@[i],
            ),
        !config.enable_physics ==> forall|i: int|
            0 <= i < updates@.len() ==> (#[trigger] updates@[i]).is_none(),
{
    let mut updates: Vec<JointUpdate> = Vec::new();
    let mut i: usize = 0;
    while i < wheel_joints.len()
        invariant
            i <= wheel_joints@.len(),
            updates@.len() == i,
            forall|k: int|
                0 <= k < i ==> #[trigger] updates@[k] == wheel_offset_and_motor_update(
                    *config,
                    wheel_joints@[k],
                ),
        decreases wheel_joints@.len() - i,
    {
        let wheel_joint = &wheel_joints[i];
        let update = if config.enable_physics {
            let vel = drive_velocity(wheel_joint.is_left, config.wheel_vel);
            let offset = mirror(wheel_joint.is_left, config.wheel_offset);
            JointUpdate {
                motor_velocity: Some(
                    MotorVelocity { axis: JointAxis::AngX, target_vel: vel, factor: DRIVE_FACTOR },
                ),
                motor_position: None,
                local_anchor1: Some(Point3::new(halve(offset), 0, 0)),
                local_anchor2: Some(Point3::new(0, -halve(config.wheel_offset as i64), 0)),
            }
        } else {
            JointUpdate::none()
        };
        updates.push(update);
        i += 1;
    }
    updates
}

/// While the physics is switched off no system tells any joint anything, so every joint
/// stays as it was last told, however many frames pass.
pub proof fn lemma_disabled_systems_are_idle(
    config: Configuration,
    controls: ControlsState,
    upright_joint: UprightJoint,
    wheel_joint: WheelJoint,
    angle: int,
    told: JointUpdate,
    frames: nat,
)
    requires
        !config.enable_physics,
    ensures
        steering_update(config.enable_physics, upright_joint, angle) == JointUpdate::spec_none(),
        rear_axle_motor_update(config, controls, wheel_joint) == JointUpdate::spec_none(),
        upright_offset_update(config, upright_joint) == JointUpdate::spec_none(),
        wheel_offset_and_motor_update(config, wheel_joint) == JointUpdate::spec_none(),
        after_rounds(told, steering_update(config.enable_physics, upright_joint, angle), frames)
            == told,
        after_rounds(told, rear_axle_motor_update(config, controls, wheel_joint), frames) == told,
        after_rounds(told, upright_offset_update(config, upright_joint), frames) == told,
        after_rounds(told, wheel_offset_and_motor_update(config, wheel_joint), frames) == told,
{
    lemma_rounds_of_none(told, frames);
}

/// While nothing is tuned, a frame more changes nothing more: after the first frame every
/// joint is told what it was already told.
pub proof fn lemma_systems_are_idempotent(
    config: Configuration,
    controls: ControlsState,
    upright_joint: UprightJoint,
    wheel_joint: WheelJoint,
    angle: int,
    told: JointUpdate,
    frames: nat,
)
    requires
        frames >= 1,
    ensures
        after_rounds(told, steering_update(config.enable_physics, upright_joint, angle), frames)
            == told.spec_followed_by(steering_update(config.enable_physics, upright_joint, angle)),
        after_rounds(told, rear_axle_motor_update(config, controls, wheel_joint), frames)
            == told.spec_followed_by(rear_axle_motor_update(config, controls, wheel_joint)),
        after_rounds(told, upright_offset_update(config, upright_joint), frames)
            == told.spec_followed_by(upright_offset_update(config, upright_joint)),
        after_rounds(told, wheel_offset_and_motor_update(config, wheel_joint), frames)
            == told.spec_followed_by(wheel_offset_and_motor_update(config, wheel_joint)),
{
    lemma_rounds_idempotent(
        told,
        steering_update(config.enable_physics, upright_joint, angle),
        frames,
    );
    lemma_rounds_idempotent(told, rear_axle_motor_update(config, controls, wheel_joint), frames);
    lemma_rounds_idempotent(told, upright_offset_update(config, upright_joint), frames);
    lemma_rounds_idempotent(told, wheel_offset_and_motor_update(config, wheel_joint), frames);
}

/// The systems that tune a running car hold the joints where they were made: told the
/// offsets that the joints were made with, they tell each joint the anchors that it has.
pub proof fn lemma_tuning_agrees_with_joints(
    config: Configuration,
    is_left: bool,
    is_front: bool,
    upright_joint: GenericJoint,
    wheel_joint: GenericJoint,
    anchor: Vector,
    lowest: int,
    highest: int,
    lock_direction: bool,
)
    requires
        config.enable_physics,
        is_upright_chasis_joint(
            upright_joint,
            anchor,
            mirrored(is_left, config.upright_offset as int),
            lowest,
            highest,
            lock_direction,
        ),
        is_upright_wheel_joint(wheel_joint, config.wheel_offset as int, is_left),
    ensures
        upright_offset_update(config, UprightJoint { is_left, is_front }).local_anchor2 == Some(
            upright_joint.local_anchor2,
        ),
        wheel_offset_and_motor_update(config, WheelJoint { is_left, is_front }).local_anchor1
            == Some(wheel_joint.local_anchor1),
        wheel_offset_and_motor_update(config, WheelJoint { is_left, is_front }).local_anchor2
            == Some(wheel_joint.local_anchor2),
{
    let told = upright_offset_update(config, UprightJoint { is_left, is_front }).local_anchor2->0;
    assert(told@ == upright_joint.local_anchor2@);
    let held = wheel_offset_and_motor_update(config, WheelJoint { is_left, is_front });
    assert((held.local_anchor1->0)@ == wheel_joint.local_anchor1@);
    assert((held.local_anchor2->0)@ == wheel_joint.local_anchor2@);
}

/// What the systems tell a joint on the left mirrors what they tell its partner on the
/// right: the wheels are driven at opposite velocities and held at opposite anchors on their
/// uprights, the uprights are held at opposite anchors, and both sides steer alike.
pub proof fn lemma_updates_mirror(
    config: Configuration,
    controls: ControlsState,
    is_front: bool,
    angle: int,
)
    requires
        config.enable_physics,
    ensures
        ({
            let left = UprightJoint { is_left: true, is_front };
            let right = UprightJoint { is_left: false, is_front };
            &&& steering_update(true, left, angle) == steering_update(true, right, angle)
            &&& (upright_offset_update(config, left).local_anchor2->0)@ == (upright_offset_update(
                config,
                right,
            ).local_anchor2->0)@.negated()
        }),
        ({
            let left = wheel_offset_and_motor_update(
                config,
                WheelJoint { is_left: true, is_front },
            );
            let right = wheel_offset_and_motor_update(
                config,
                WheelJoint { is_left: false, is_front },
            );
            &&& (left.local_anchor1->0)@ == (right.local_anchor1->0)@.negated()
            &&& left.local_anchor2 == right.local_anchor2
            &&& (left.motor_velocity->0).target_vel == -(right.motor_velocity->0).target_vel
        }),
        ({
            let left = rear_axle_motor_update(
                config,
                controls,
                WheelJoint { is_left: true, is_front },
            );
            let right = rear_axle_motor_update(
                config,
                controls,
                WheelJoint { is_left: false, is_front },
            );
            !is_front ==> (left.motor_velocity->0).target_vel == -(
            right.motor_velocity->0).target_vel
        }),
{
    assert(ACCELERATOR_GAIN == 1000);
}

/// While the player's controls are within their ranges, the systems ask of the joints
/// nothing that the joints do not allow: the steering motor of a front upright is never told
/// an angle beyond the limits that its joint was made with, and no rear wheel is told to spin
/// faster than a thousand units.
pub proof fn lemma_controls_stay_within_limits(
    config: Configuration,
    controls: ControlsState,
    upright_joint: UprightJoint,
    wheel_joint: WheelJoint,
    joint: GenericJoint,
    anchor: Vector,
    offset: int,
    lowest: int,
    highest: int,
)
    requires
        controls.in_range(),
        is_upright_chasis_joint(joint, anchor, offset, lowest, highest, false),
    ensures
        steering_update(
            config.enable_physics,
            upright_joint,
            spec_steering_to_angle(controls.steering_wheel_degrees as int),
        ).motor_position matches Some(motor) ==> joint.angular_limits matches Some(limits)
            && motor.axis == limits.axis && limits.min <= motor.target_pos <= limits.max,
        rear_axle_motor_update(config, controls, wheel_joint).motor_velocity matches Some(motor)
            ==> -1_000_000 <= motor.target_vel <= 1_000_000,
{
    assert(STEERING_WHEEL_DEGREES_RANGE == 900_000);
    assert(ACCELERATOR_GAIN == 1000);
    assert(crate::fixed::SCALE == 1000);
    lemma_steering_to_angle_odd(controls.steering_wheel_degrees as int);
}

} // verus!
