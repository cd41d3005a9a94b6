use ruststk::vehicle::{ConfigError, Direction, Vehicle};

/// Spawn point, heading and constants matching the standard scenario:
/// origin, heading 0 (up), max forward velocity 3.0, turn rate 4 degrees,
/// acceleration step 0.1 — all in milli-units.
fn standard_car() -> Vehicle {
    Vehicle::new(0, 0, 0, 3000, 4000, 100).expect("valid configuration")
}

/// Direction of travel for heading 0 under the crate's convention:
/// straight up the screen.
fn up() -> Direction {
    Direction { ux: 0, uy: -1000 }
}

/// Direction of travel pointing along the positive x axis.
fn right() -> Direction {
    Direction { ux: 1000, uy: 0 }
}

#[test]
fn first_forward_step_from_spawn() {
    let mut car = standard_car();
    car.move_forward(up());
    assert_eq!(car.velocity, 100);
    assert_eq!(car.x, 0);
    assert_eq!(car.y, -100);
}

#[test]
fn forward_velocity_caps_at_max() {
    let mut car = standard_car();
    for _ in 0..50 {
        car.move_forward(up());
        assert!(car.velocity <= 3000);
    }
    assert_eq!(car.velocity, 3000);
}

#[test]
fn backward_velocity_caps_at_half_max() {
    let mut car = standard_car();
    for _ in 0..50 {
        car.move_backward(up());
        assert!(car.velocity >= -1500);
    }
    assert_eq!(car.velocity, -1500);
}

#[test]
fn coast_decays_multiplicatively() {
    let mut car = standard_car();
    car.move_forward(up());
    assert_eq!(car.velocity, 100);
    car.coast(up());
    assert_eq!(car.velocity, 90);
    car.coast(up());
    assert_eq!(car.velocity, 81);
    car.coast(up());
    assert_eq!(car.velocity, 72);
}

#[test]
fn coast_strictly_decreases_magnitude_until_zero() {
    let mut car = standard_car();
    car.velocity = 2500;
    let mut previous = car.velocity;
    let mut steps = 0;
    while car.velocity != 0 {
        car.coast(up());
        assert!(car.velocity.abs() < previous.abs());
        previous = car.velocity;
        steps += 1;
        assert!(steps < 200, "decay must terminate");
    }
    car.coast(up());
    assert_eq!(car.velocity, 0);
}

#[test]
fn coast_decays_negative_velocity_toward_zero() {
    let mut car = standard_car();
    car.velocity = -100;
    car.coast(up());
    assert_eq!(car.velocity, -90);
    car.velocity = -1;
    car.coast(up());
    assert_eq!(car.velocity, 0);
}

#[test]
fn bounce_halves_and_reverses_velocity() {
    let mut car = standard_car();
    car.velocity = 100;
    car.y = -100;
    car.bounce(up());
    assert_eq!(car.velocity, -50);
    // The car now moves against the old direction of travel: back down.
    assert_eq!(car.y, -50);
}

#[test]
fn bounce_truncates_toward_zero_either_sign() {
    let mut car = standard_car();
    car.velocity = 101;
    car.bounce(right());
    assert_eq!(car.velocity, -50);
    car.velocity = -101;
    car.bounce(right());
    assert_eq!(car.velocity, 50);
}

#[test]
fn reset_restores_spawn_state_exactly() {
    let mut car = Vehicle::new(920_000, 1_350_000, 90_000, 3000, 4000, 100).unwrap();
    for _ in 0..7 {
        car.move_forward(right());
        car.rotate(true, false);
    }
    car.move_backward(up());
    car.reset();
    assert_eq!(car.x, 920_000);
    assert_eq!(car.y, 1_350_000);
    assert_eq!(car.heading, 90_000);
    assert_eq!(car.velocity, 0);
    assert_eq!(car.max_forward_velocity, 3000);
    assert_eq!(car.turn_rate, 4000);
    assert_eq!(car.acceleration_step, 100);
}

#[test]
fn reset_twice_equals_reset_once() {
    let mut car = standard_car();
    car.move_forward(up());
    car.rotate(false, true);
    car.reset();
    let once = (car.x, car.y, car.heading, car.velocity);
    car.reset();
    assert_eq!((car.x, car.y, car.heading, car.velocity), once);
}

#[test]
fn rotate_left_increases_heading() {
    let mut car = standard_car();
    car.rotate(true, false);
    assert_eq!(car.heading, 4000);
}

#[test]
fn rotate_right_decreases_heading_and_wraps() {
    let mut car = standard_car();
    car.rotate(false, true);
    assert_eq!(car.heading, 356_000);
}

#[test]
fn rotate_tie_goes_left() {
    let mut car = standard_car();
    car.rotate(true, true);
    assert_eq!(car.heading, 4000);
}

#[test]
fn rotate_without_input_keeps_heading() {
    let mut car = standard_car();
    car.rotate(false, false);
    assert_eq!(car.heading, 0);
}

#[test]
fn heading_wraps_past_full_turn() {
    let mut car = Vehicle::new(0, 0, 358_000, 3000, 4000, 100).unwrap();
    car.rotate(true, false);
    assert_eq!(car.heading, 2000);
}

#[test]
fn rotation_does_not_move_the_car() {
    let mut car = standard_car();
    car.velocity = 2000;
    car.rotate(true, false);
    assert_eq!((car.x, car.y, car.velocity), (0, 0, 2000));
}

#[test]
fn position_saturates_at_coordinate_limit() {
    let mut car = standard_car();
    car.x = 999_999_999_950;
    car.velocity = 3000;
    car.coast(right());
    assert_eq!(car.velocity, 2700);
    assert_eq!(car.x, 1_000_000_000_000);
}

#[test]
fn construction_rejects_non_positive_max_velocity() {
    let r = Vehicle::new(0, 0, 0, 0, 4000, 100);
    assert_eq!(r.unwrap_err(), ConfigError::NonPositiveMaxVelocity);
}

#[test]
fn construction_rejects_negative_turn_rate() {
    let r = Vehicle::new(0, 0, 0, 3000, -1, 100);
    assert_eq!(r.unwrap_err(), ConfigError::NegativeTurnRate);
}

#[test]
fn construction_rejects_non_positive_acceleration() {
    let r = Vehicle::new(0, 0, 0, 3000, 4000, 0);
    assert_eq!(r.unwrap_err(), ConfigError::NonPositiveAcceleration);
}

#[test]
fn diagonal_direction_moves_both_coordinates() {
    let mut car = standard_car();
    car.velocity = 1000;
    // 45 degrees down-right: cos and sin both about 0.707.
    car.recompute_position(Direction { ux: 707, uy: 707 });
    assert_eq!(car.x, 707);
    assert_eq!(car.y, 707);
}
