use ruststk::frame::{advance_frame, steer, InputState};
use ruststk::race::RaceState;
use ruststk::vehicle::{Contact, Direction, Vehicle};

fn standard_car() -> Vehicle {
    Vehicle::new(0, 0, 0, 3000, 4000, 100).expect("valid configuration")
}

fn up() -> Direction {
    Direction { ux: 0, uy: -1000 }
}

fn keys(turn_left: bool, turn_right: bool, accelerate: bool, decelerate: bool) -> InputState {
    InputState { turn_left, turn_right, accelerate, decelerate }
}

#[test]
fn no_keys_coasts() {
    let mut car = standard_car();
    car.velocity = 100;
    let mut race = RaceState::new(6);
    advance_frame(&mut car, &mut race, keys(false, false, false, false), up(), None);
    assert_eq!(car.velocity, 90);
    assert_eq!(car.y, -90);
}

#[test]
fn accelerate_key_moves_forward() {
    let mut car = standard_car();
    let mut race = RaceState::new(6);
    advance_frame(&mut car, &mut race, keys(false, false, true, false), up(), None);
    assert_eq!(car.velocity, 100);
    assert_eq!(car.y, -100);
}

#[test]
fn decelerate_key_moves_backward() {
    let mut car = standard_car();
    let mut race = RaceState::new(6);
    advance_frame(&mut car, &mut race, keys(false, false, false, true), up(), None);
    assert_eq!(car.velocity, -100);
    assert_eq!(car.y, 100);
}

#[test]
fn forward_wins_a_longitudinal_tie() {
    let mut car = standard_car();
    let mut race = RaceState::new(6);
    advance_frame(&mut car, &mut race, keys(false, false, true, true), up(), None);
    assert_eq!(car.velocity, 100);
}

#[test]
fn contact_bounces_after_the_move() {
    let mut car = standard_car();
    car.velocity = 100;
    let mut race = RaceState::new(6);
    let contact = Some(Contact { x: 0, y: -200 });
    advance_frame(&mut car, &mut race, keys(false, false, true, false), up(), contact);
    // Forward step: velocity 200, y -200; bounce: velocity -100, y -100.
    assert_eq!(car.velocity, -100);
    assert_eq!(car.y, -100);
}

#[test]
fn steer_resolves_at_most_one_rotation() {
    let mut car = standard_car();
    steer(&mut car, keys(true, true, false, false));
    assert_eq!(car.heading, 4000);
    steer(&mut car, keys(false, true, false, false));
    assert_eq!(car.heading, 0);
    steer(&mut car, keys(false, false, true, true));
    assert_eq!(car.heading, 0);
}

#[test]
fn frame_ticks_the_race_and_reports_the_banner() {
    let mut car = standard_car();
    let mut race = RaceState::new(1);
    race.record_lap();
    let shown = advance_frame(&mut car, &mut race, keys(false, false, false, false), up(), None);
    assert!(race.won);
    assert_eq!(race.blink_counter, 1);
    assert!(shown);
}

#[test]
fn banner_stays_hidden_while_racing() {
    let mut car = standard_car();
    let mut race = RaceState::new(6);
    let shown = advance_frame(&mut car, &mut race, keys(false, false, true, false), up(), None);
    assert!(!race.won);
    assert!(!shown);
}
