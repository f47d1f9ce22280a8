use car_suspension::car::dynamics::suspension::{
    make_front_upright_chasis_joint, make_upright_wheel_joint, MAX_STEERING_ANGLE,
    MIN_STEERING_ANGLE, STEERING_DAMPING, STEERING_STIFFNESS,
};
use car_suspension::joint::{
    AxisLimits, GenericJoint, JointAxesMask, JointAxis, JointMotor, JointUpdate, MotorPosition,
    MotorVelocity,
};
use car_suspension::vector::{Point3, Rotation, Vec3};

const ALL_AXES: [JointAxis; 6] = [
    JointAxis::X,
    JointAxis::Y,
    JointAxis::Z,
    JointAxis::AngX,
    JointAxis::AngY,
    JointAxis::AngZ,
];

fn free_axes(joint: &GenericJoint) -> Vec<JointAxis> {
    ALL_AXES.iter().copied().filter(|axis| joint.leaves_free(*axis)).collect()
}

#[test]
fn locked_upright_joint_has_no_free_rotation() {
    let joint = make_front_upright_chasis_joint(Vec3::new(1000, -475, 2200), 0, [-1000, 0], true);
    assert_eq!(free_axes(&joint), vec![JointAxis::X]);
    let free_rotations: Vec<JointAxis> =
        free_axes(&joint).into_iter().filter(|axis| axis.is_angular()).collect();
    assert_eq!(free_rotations, Vec::<JointAxis>::new());
    assert_eq!(joint.angular_limits, None);
    assert_eq!(joint.motor, None);
}

#[test]
fn steered_upright_joint_has_one_free_rotation_within_its_locks() {
    let joint = make_front_upright_chasis_joint(Vec3::new(1000, -475, -1650), 0, [-1000, 0], false);
    assert_eq!(free_axes(&joint), vec![JointAxis::X, JointAxis::AngX]);
    let free_rotations: Vec<JointAxis> =
        free_axes(&joint).into_iter().filter(|axis| axis.is_angular()).collect();
    assert_eq!(free_rotations, vec![JointAxis::AngX]);
    assert_eq!(
        joint.angular_limits,
        Some(AxisLimits { axis: JointAxis::AngX, min: -45_000, max: 45_000 })
    );
    assert_eq!(MIN_STEERING_ANGLE, -45_000);
    assert_eq!(MAX_STEERING_ANGLE, 45_000);
    assert_eq!(
        joint.motor,
        Some(JointMotor {
            axis: JointAxis::AngX,
            target_pos: 0,
            target_vel: 0,
            stiffness: 1_000_000_000,
            damping: 100_000_000,
        })
    );
    assert_eq!(STEERING_STIFFNESS, 1_000_000_000);
    assert_eq!(STEERING_DAMPING, 100_000_000);
}

#[test]
fn upright_joint_is_anchored_and_limited_as_asked() {
    for lock in [true, false] {
        let joint =
            make_front_upright_chasis_joint(Vec3::new(-900, 10, 33), -100, [-1000, 0], lock);
        assert_eq!(joint.local_axis1, Vec3::unit_y());
        assert_eq!(joint.local_axis2, Vec3::unit_y());
        assert_eq!(joint.local_basis1, None);
        assert_eq!(joint.local_anchor1, Point3::new(-900, 10, 33));
        assert_eq!(joint.local_anchor2, Point3::new(100, 0, 0));
        assert_eq!(
            joint.linear_limits,
            Some(AxisLimits { axis: JointAxis::X, min: -1000, max: 0 })
        );
        assert!(!joint.contacts_enabled);
        assert!(joint.locked_axes.contains(JointAxis::Y));
        assert!(joint.locked_axes.contains(JointAxis::Z));
        assert!(joint.locked_axes.contains(JointAxis::AngY));
        assert!(joint.locked_axes.contains(JointAxis::AngZ));
        assert!(!joint.locked_axes.contains(JointAxis::X));
        assert_eq!(joint.locked_axes.contains(JointAxis::AngX), lock);
    }
    let joint = make_front_upright_chasis_joint(Vec3::zero(), i32::MIN, [i32::MIN, i32::MAX], true);
    assert_eq!(joint.local_anchor2, Point3::new(2_147_483_648, 0, 0));
    assert_eq!(
        joint.linear_limits,
        Some(AxisLimits { axis: JointAxis::X, min: -2_147_483_648, max: 2_147_483_647 })
    );
}

#[test]
fn wheel_joint_leaves_only_the_spin() {
    for is_left in [true, false] {
        let joint = make_upright_wheel_joint(200, is_left);
        assert_eq!(free_axes(&joint), vec![JointAxis::AngX]);
        assert_eq!(joint.linear_limits, None);
        assert_eq!(joint.angular_limits, None);
        assert_eq!(joint.motor, None);
        assert!(!joint.contacts_enabled);
        assert_eq!(joint.local_axis2, Vec3::neg_unit_y());
        assert_eq!(joint.local_anchor2, Point3::new(0, -100, 0));
    }
}

#[test]
fn wheel_joint_is_mirrored_between_the_sides() {
    let left = make_upright_wheel_joint(200, true);
    let right = make_upright_wheel_joint(200, false);
    assert_eq!(left.local_axis1, Vec3::neg_unit_x());
    assert_eq!(right.local_axis1, Vec3::unit_x());
    assert_eq!(left.local_anchor1, Point3::new(-100, 0, 0));
    assert_eq!(right.local_anchor1, Point3::new(100, 0, 0));
    assert_eq!(
        left.local_basis1,
        Some(Rotation::AxisAngle { axis: Vec3::unit_y(), angle: 0 })
    );
    assert_eq!(
        right.local_basis1,
        Some(Rotation::AxisAngle { axis: Vec3::unit_y(), angle: 180_000 })
    );
    assert_eq!(left.local_anchor2, right.local_anchor2);
}

#[test]
fn wheel_joint_halves_round_toward_zero() {
    let left = make_upright_wheel_joint(201, true);
    let right = make_upright_wheel_joint(201, false);
    assert_eq!(left.local_anchor1, Point3::new(-100, 0, 0));
    assert_eq!(right.local_anchor1, Point3::new(100, 0, 0));
    assert_eq!(left.local_anchor2, Point3::new(0, -100, 0));
    let inward = make_upright_wheel_joint(-201, true);
    assert_eq!(inward.local_anchor1, Point3::new(100, 0, 0));
    assert_eq!(inward.local_anchor2, Point3::new(0, 100, 0));
    let widest = make_upright_wheel_joint(i32::MIN, true);
    assert_eq!(widest.local_anchor1, Point3::new(1_073_741_824, 0, 0));
    assert_eq!(widest.local_anchor2, Point3::new(0, 1_073_741_824, 0));
}

#[test]
fn masks_hold_what_was_put_in() {
    let empty = JointAxesMask::empty();
    for axis in ALL_AXES {
        assert!(!empty.contains(axis));
        let single = JointAxesMask::single(axis);
        for other in ALL_AXES {
            assert_eq!(single.contains(other), other == axis);
        }
        assert_eq!(empty.with(axis), single);
        assert_eq!(single.union(empty), single);
        assert_eq!(single.union(single), single);
    }
    let linear = JointAxesMask::single(JointAxis::X).with(JointAxis::Y).with(JointAxis::Z);
    let angular = JointAxesMask::single(JointAxis::AngZ)
        .with(JointAxis::AngY)
        .with(JointAxis::AngX);
    let all = linear.union(angular);
    for axis in ALL_AXES {
        assert!(all.contains(axis));
        assert_eq!(linear.contains(axis), !axis.is_angular());
        assert_eq!(angular.contains(axis), axis.is_angular());
    }
    assert_eq!(linear.union(angular), angular.union(linear));
}

#[test]
fn masks_with_the_same_axes_are_the_same_mask() {
    let one_way = JointAxesMask::single(JointAxis::Y).with(JointAxis::AngZ).with(JointAxis::Z);
    let other_way = JointAxesMask::single(JointAxis::Z)
        .with(JointAxis::Y)
        .with(JointAxis::AngZ)
        .with(JointAxis::Y);
    assert!(one_way.same_axes(&other_way));
    assert_eq!(one_way, other_way);
    let more = one_way.with(JointAxis::X);
    assert!(!one_way.same_axes(&more));
    assert_ne!(one_way, more);
    assert!(JointAxesMask::empty().same_axes(&JointAxesMask::empty()));
    assert!(!JointAxesMask::empty().same_axes(&JointAxesMask::single(JointAxis::AngX)));
}

#[test]
fn later_updates_override_earlier_ones_part_by_part() {
    let none = JointUpdate::none();
    assert!(none.is_none());
    let spin = JointUpdate {
        motor_velocity: Some(MotorVelocity {
            axis: JointAxis::AngX,
            target_vel: 5000,
            factor: 1000,
        }),
        motor_position: None,
        local_anchor1: Some(Point3::new(1, 2, 3)),
        local_anchor2: None,
    };
    let steer = JointUpdate {
        motor_velocity: None,
        motor_position: Some(MotorPosition {
            axis: JointAxis::AngX,
            target_pos: 10_000,
            stiffness: 1_000_000_000,
            damping: 100_000_000,
        }),
        local_anchor1: Some(Point3::new(4, 5, 6)),
        local_anchor2: Some(Point3::new(7, 8, 9)),
    };
    assert!(!spin.is_none());
    assert_eq!(spin.followed_by(none), spin);
    assert_eq!(none.followed_by(spin), spin);
    assert_eq!(spin.followed_by(spin), spin);
    let both = spin.followed_by(steer);
    assert_eq!(both.motor_velocity, spin.motor_velocity);
    assert_eq!(both.motor_position, steer.motor_position);
    assert_eq!(both.local_anchor1, Some(Point3::new(4, 5, 6)));
    assert_eq!(both.local_anchor2, Some(Point3::new(7, 8, 9)));
    let other_way = steer.followed_by(spin);
    assert_eq!(other_way.local_anchor1, Some(Point3::new(1, 2, 3)));
    assert_eq!(other_way.local_anchor2, Some(Point3::new(7, 8, 9)));
}
