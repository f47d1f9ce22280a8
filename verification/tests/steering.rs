use car_suspension::car::dynamics::suspension::{
    drive_velocity, steering_to_angle, SteeringMap, MAX_STEERING_ANGLE, MIN_STEERING_ANGLE,
    STEERING_WHEEL_DEGREES_RANGE, TURNING_DEGREES,
};
use car_suspension::fixed::{div_toward_zero, halve, mirror, SCALE};

#[test]
fn steering_wheel_at_rest_and_at_its_locks() {
    assert_eq!(steering_to_angle(0), 0);
    assert_eq!(steering_to_angle(450_000), 45_000);
    assert_eq!(steering_to_angle(-450_000), -45_000);
    assert_eq!(steering_to_angle(450_000), MAX_STEERING_ANGLE);
    assert_eq!(steering_to_angle(-450_000), MIN_STEERING_ANGLE);
}

#[test]
fn steering_is_a_tenth_of_the_steering_wheel() {
    assert_eq!(steering_to_angle(100_000), 10_000);
    assert_eq!(steering_to_angle(-225_000), -22_500);
    assert_eq!(steering_to_angle(1_230), 123);
    assert_eq!(steering_to_angle(i32::MAX), 214_748_364);
    assert_eq!(steering_to_angle(i32::MIN), -214_748_364);
}

#[test]
fn steering_rounds_toward_straight_ahead() {
    assert_eq!(steering_to_angle(9), 0);
    assert_eq!(steering_to_angle(-9), 0);
    assert_eq!(steering_to_angle(15), 1);
    assert_eq!(steering_to_angle(-15), -1);
    assert_eq!(steering_to_angle(19), 1);
    assert_eq!(steering_to_angle(-19), -1);
}

#[test]
fn steering_is_odd() {
    for s in [0, 1, 7, 10, 11, 449_999, 450_000, 1_000_003, i32::MAX] {
        assert_eq!(steering_to_angle(-s), -steering_to_angle(s));
    }
}

#[test]
fn default_steering_map_is_the_steering_of_the_car() {
    let map = SteeringMap::default();
    assert_eq!(map.turning_degrees, TURNING_DEGREES);
    assert_eq!(map.steering_wheel_degrees_range, STEERING_WHEEL_DEGREES_RANGE);
    assert_eq!(TURNING_DEGREES, 90_000);
    assert_eq!(STEERING_WHEEL_DEGREES_RANGE, 900_000);
    for s in [-450_000, -123_456, -15, 0, 9, 15, 300_000, 450_000, i32::MAX, i32::MIN] {
        assert_eq!(map.angle(s), Some(steering_to_angle(s)));
    }
}

#[test]
fn steering_map_without_a_range_maps_nothing() {
    let flat = SteeringMap { turning_degrees: 90_000, steering_wheel_degrees_range: 0 };
    assert_eq!(flat.angle(0), None);
    assert_eq!(flat.angle(450_000), None);
    let inverted = SteeringMap { turning_degrees: 90_000, steering_wheel_degrees_range: -900_000 };
    assert_eq!(inverted.angle(100_000), None);
}

#[test]
fn steering_map_with_other_ranges() {
    let quick = SteeringMap { turning_degrees: 60_000, steering_wheel_degrees_range: 180_000 };
    assert_eq!(quick.angle(90_000), Some(30_000));
    assert_eq!(quick.angle(-90_000), Some(-30_000));
    assert_eq!(quick.angle(1), Some(0));
    assert_eq!(quick.angle(-1), Some(0));
    assert_eq!(quick.angle(4), Some(1));
    assert_eq!(quick.angle(-4), Some(-1));
    let extreme = SteeringMap { turning_degrees: i32::MIN, steering_wheel_degrees_range: 1 };
    assert_eq!(extreme.angle(i32::MIN), Some(4_611_686_018_427_387_904));
    assert_eq!(extreme.angle(i32::MAX), Some(-4_611_686_016_279_904_256));
}

#[test]
fn drive_velocity_is_negated_on_the_left() {
    assert_eq!(drive_velocity(true, 5000), -5000);
    assert_eq!(drive_velocity(false, 5000), 5000);
    assert_eq!(drive_velocity(true, -5000), 5000);
    assert_eq!(drive_velocity(true, 0), 0);
    assert_eq!(drive_velocity(true, i32::MIN), 2_147_483_648);
    assert_eq!(drive_velocity(false, i32::MIN), -2_147_483_648);
}

#[test]
fn fixed_point_helpers_round_toward_zero() {
    assert_eq!(SCALE, 1000);
    assert_eq!(halve(201), 100);
    assert_eq!(halve(-201), -100);
    assert_eq!(halve(200), 100);
    assert_eq!(halve(-1), 0);
    assert_eq!(halve(i64::MIN), -4_611_686_018_427_387_904);
    assert_eq!(div_toward_zero(7, 2), 3);
    assert_eq!(div_toward_zero(-7, 2), -3);
    assert_eq!(div_toward_zero(-7, 7), -1);
    assert_eq!(div_toward_zero(0, 5), 0);
    assert_eq!(div_toward_zero(i64::MIN, 1), i64::MIN);
    assert_eq!(mirror(true, 3), -3);
    assert_eq!(mirror(false, 3), 3);
    assert_eq!(mirror(true, i32::MIN), 2_147_483_648);
}
