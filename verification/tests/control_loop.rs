use car_suspension::car::dynamics::suspension::{
    make_front_upright_chasis_joint, make_upright_wheel_joint, steering_to_angle,
    system_rear_axle_motor, system_steering, system_update_upright_steering,
    system_upright_offset, system_wheel_offset_and_motor, ACCELERATOR_GAIN, DRIVE_FACTOR,
};
use car_suspension::car::dynamics::{UprightJoint, WheelJoint};
use car_suspension::car::Configuration;
use car_suspension::joint::{JointAxis, JointUpdate, MotorPosition, MotorVelocity};
use car_suspension::plugins::controls::{turn_steering_wheel, ControlsState};
use car_suspension::vector::{Point3, Vec3};

fn four_wheel_joints() -> Vec<WheelJoint> {
    vec![
        WheelJoint { is_left: true, is_front: true },
        WheelJoint { is_left: false, is_front: true },
        WheelJoint { is_left: true, is_front: false },
        WheelJoint { is_left: false, is_front: false },
    ]
}

fn four_upright_joints() -> Vec<UprightJoint> {
    vec![
        UprightJoint { is_left: true, is_front: true },
        UprightJoint { is_left: false, is_front: true },
        UprightJoint { is_left: true, is_front: false },
        UprightJoint { is_left: false, is_front: false },
    ]
}

fn running() -> Configuration {
    Configuration {
        wheel_vel: 5000,
        wheel_offset: 700,
        upright_offset: 100,
        steering_angle: 12_500,
        enable_physics: true,
    }
}

fn spin(target_vel: i64) -> JointUpdate {
    JointUpdate {
        motor_velocity: Some(MotorVelocity { axis: JointAxis::AngX, target_vel, factor: 1000 }),
        ..JointUpdate::none()
    }
}

fn track(target_pos: i64) -> JointUpdate {
    JointUpdate {
        motor_position: Some(MotorPosition {
            axis: JointAxis::AngX,
            target_pos,
            stiffness: 1_000_000_000,
            damping: 100_000_000,
        }),
        ..JointUpdate::none()
    }
}

#[test]
fn default_configuration_has_the_physics_switched_off() {
    assert_eq!(
        Configuration::default(),
        Configuration {
            wheel_vel: 0,
            wheel_offset: 0,
            upright_offset: 0,
            steering_angle: 0,
            enable_physics: false,
        }
    );
    assert_eq!(
        ControlsState::default(),
        ControlsState { steering_wheel_degrees: 0, accelerator: 0 }
    );
}

#[test]
fn rear_axle_is_driven_by_the_accelerator() {
    assert_eq!(ACCELERATOR_GAIN, 1000);
    assert_eq!(DRIVE_FACTOR, 1000);
    let controls = ControlsState { steering_wheel_degrees: 0, accelerator: 250 };
    let updates = system_rear_axle_motor(&running(), &controls, &four_wheel_joints());
    assert_eq!(
        updates,
        vec![JointUpdate::none(), JointUpdate::none(), spin(-250_000), spin(250_000)]
    );

    let floored = ControlsState { steering_wheel_degrees: 0, accelerator: 1000 };
    let updates = system_rear_axle_motor(&running(), &floored, &four_wheel_joints());
    assert_eq!(updates[2], spin(-1_000_000));
    assert_eq!(updates[3], spin(1_000_000));

    let wild = ControlsState { steering_wheel_degrees: 0, accelerator: i32::MIN };
    let updates = system_rear_axle_motor(&running(), &wild, &four_wheel_joints());
    assert_eq!(updates[2], spin(2_147_483_648_000));
    assert_eq!(updates[3], spin(-2_147_483_648_000));
}

#[test]
fn front_uprights_track_the_steering_wheel() {
    let controls = ControlsState { steering_wheel_degrees: 225_000, accelerator: 0 };
    let updates = system_update_upright_steering(&running(), &controls, &four_upright_joints());
    assert_eq!(
        updates,
        vec![track(22_500), track(22_500), JointUpdate::none(), JointUpdate::none()]
    );

    let controls = ControlsState { steering_wheel_degrees: -450_000, accelerator: 0 };
    let updates = system_update_upright_steering(&running(), &controls, &four_upright_joints());
    assert_eq!(updates[0], track(-45_000));
    assert_eq!(updates[0], track(steering_to_angle(-450_000)));
}

#[test]
fn front_uprights_track_the_tuned_angle() {
    let updates = system_steering(&running(), &four_upright_joints());
    assert_eq!(
        updates,
        vec![track(12_500), track(12_500), JointUpdate::none(), JointUpdate::none()]
    );
}

#[test]
fn uprights_are_held_at_the_tuned_offset() {
    let updates = system_upright_offset(&running(), &four_upright_joints());
    let left = JointUpdate { local_anchor2: Some(Point3::new(100, 0, 0)), ..JointUpdate::none() };
    let right = JointUpdate { local_anchor2: Some(Point3::new(-100, 0, 0)), ..JointUpdate::none() };
    assert_eq!(updates, vec![left, right, left, right]);
}

#[test]
fn wheels_are_spun_and_held_as_tuned() {
    let updates = system_wheel_offset_and_motor(&running(), &four_wheel_joints());
    let left = JointUpdate {
        motor_velocity: spin(-5000).motor_velocity,
        motor_position: None,
        local_anchor1: Some(Point3::new(-350, 0, 0)),
        local_anchor2: Some(Point3::new(0, -350, 0)),
    };
    let right = JointUpdate {
        motor_velocity: spin(5000).motor_velocity,
        motor_position: None,
        local_anchor1: Some(Point3::new(350, 0, 0)),
        local_anchor2: Some(Point3::new(0, -350, 0)),
    };
    assert_eq!(updates, vec![left, right, left, right]);
}

#[test]
fn nothing_is_told_while_the_physics_is_off() {
    let mut config = running();
    config.enable_physics = false;
    let controls = ControlsState { steering_wheel_degrees: 300_000, accelerator: 1000 };
    let idle = vec![JointUpdate::none(); 4];
    for _ in 0..3 {
        assert_eq!(system_rear_axle_motor(&config, &controls, &four_wheel_joints()), idle);
        assert_eq!(
            system_update_upright_steering(&config, &controls, &four_upright_joints()),
            idle
        );
        assert_eq!(system_steering(&config, &four_upright_joints()), idle);
        assert_eq!(system_upright_offset(&config, &four_upright_joints()), idle);
        assert_eq!(system_wheel_offset_and_motor(&config, &four_wheel_joints()), idle);
    }
    let mut told = spin(77).followed_by(track(-3));
    let before = told;
    for _ in 0..5 {
        for update in system_wheel_offset_and_motor(&config, &four_wheel_joints()) {
            told = told.followed_by(update);
        }
        for update in system_steering(&config, &four_upright_joints()) {
            told = told.followed_by(update);
        }
    }
    assert_eq!(told, before);
}

#[test]
fn systems_without_joints_tell_nothing() {
    let controls = ControlsState { steering_wheel_degrees: 1, accelerator: 1 };
    assert_eq!(system_rear_axle_motor(&running(), &controls, &vec![]), vec![]);
    assert_eq!(system_update_upright_steering(&running(), &controls, &vec![]), vec![]);
    assert_eq!(system_steering(&running(), &vec![]), vec![]);
    assert_eq!(system_upright_offset(&running(), &vec![]), vec![]);
    assert_eq!(system_wheel_offset_and_motor(&running(), &vec![]), vec![]);
}

#[test]
fn a_second_frame_tells_the_joints_nothing_new() {
    let wheels = four_wheel_joints();
    let first = system_wheel_offset_and_motor(&running(), &wheels);
    let second = system_wheel_offset_and_motor(&running(), &wheels);
    assert_eq!(first, second);
    for i in 0..4 {
        let told = JointUpdate::none().followed_by(first[i]);
        assert_eq!(told.followed_by(second[i]), told);
    }
}

#[test]
fn tuning_holds_the_joints_where_they_were_made() {
    let config = running();
    let wheel_updates = system_wheel_offset_and_motor(&config, &four_wheel_joints());
    let upright_updates = system_upright_offset(&config, &four_upright_joints());
    for (i, tag) in four_wheel_joints().iter().enumerate() {
        let wheel_joint = make_upright_wheel_joint(config.wheel_offset, tag.is_left);
        assert_eq!(wheel_updates[i].local_anchor1, Some(wheel_joint.local_anchor1));
        assert_eq!(wheel_updates[i].local_anchor2, Some(wheel_joint.local_anchor2));
        let relative = if tag.is_left { -config.upright_offset } else { config.upright_offset };
        let upright_joint = make_front_upright_chasis_joint(
            Vec3::new(1, 2, 3),
            relative,
            [-1000, 0],
            !tag.is_front,
        );
        assert_eq!(upright_updates[i].local_anchor2, Some(upright_joint.local_anchor2));
    }
}

#[test]
fn odd_offsets_stay_mirrored() {
    let config = Configuration {
        wheel_vel: i32::MIN,
        wheel_offset: 701,
        upright_offset: i32::MIN,
        steering_angle: i32::MIN,
        enable_physics: true,
    };
    let wheels = system_wheel_offset_and_motor(&config, &four_wheel_joints());
    assert_eq!(wheels[0].local_anchor1, Some(Point3::new(-350, 0, 0)));
    assert_eq!(wheels[1].local_anchor1, Some(Point3::new(350, 0, 0)));
    assert_eq!(wheels[0].local_anchor2, Some(Point3::new(0, -350, 0)));
    assert_eq!(wheels[0].motor_velocity.unwrap().target_vel, 2_147_483_648);
    assert_eq!(wheels[1].motor_velocity.unwrap().target_vel, -2_147_483_648);
    let uprights = system_upright_offset(&config, &four_upright_joints());
    assert_eq!(uprights[0].local_anchor2, Some(Point3::new(-2_147_483_648, 0, 0)));
    assert_eq!(uprights[1].local_anchor2, Some(Point3::new(2_147_483_648, 0, 0)));
    let steering = system_steering(&config, &four_upright_joints());
    assert_eq!(steering[0], track(-2_147_483_648));
}

#[test]
fn controls_read_off_the_pointer_stay_within_the_joints_limits() {
    let joint = make_front_upright_chasis_joint(Vec3::zero(), 0, [-1000, 0], false);
    let limits = joint.angular_limits.unwrap();
    for (x, y) in [(0, 0), (1, 479), (320, 240), (639, 1), (640, 480)] {
        let controls = turn_steering_wheel(x, y, 640, 480).unwrap();
        let steering =
            system_update_upright_steering(&running(), &controls, &four_upright_joints());
        let motor = steering[0].motor_position.unwrap();
        assert_eq!(motor.axis, limits.axis);
        assert!(limits.min <= motor.target_pos && motor.target_pos <= limits.max);
        let drive = system_rear_axle_motor(&running(), &controls, &four_wheel_joints());
        let spin = drive[3].motor_velocity.unwrap();
        assert!(0 <= spin.target_vel && spin.target_vel <= 1_000_000);
        assert_eq!(drive[2].motor_velocity.unwrap().target_vel, -spin.target_vel);
    }
}
