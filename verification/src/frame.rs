//! The per-frame decision step of the fixed-rate loop.
//!
//! Each frame the loop around this crate samples the held keys, polls for
//! a quit signal, queries the obstacle mask for a contact (see
//! `Vehicle::collide`), and
//! computes the direction vector for the car's heading; this module makes
//! the decisions: which rotation to apply (steering, before the direction
//! vector is read), which longitudinal transition to apply (forward wins
//! a forward/backward tie, coast when neither is held), a bounce on
//! contact, and one race tick — and reports whether the win banner is
//! shown this frame. Frame pacing, event polling and rendering stay with
//! the caller.

use crate::race::RaceState;
use crate::vehicle::{Contact, Direction, Vehicle};
use vstd::prelude::*;

verus! {

/// The held-key state for one frame's four logical actions.
#[derive(Clone, Copy, Debug, PartialEq, Eq, Structural)]
pub struct InputState {
    /// Turn-left key held.
    pub turn_left: bool,
    /// Turn-right key held.
    pub turn_right: bool,
    /// Accelerate (forward) key held.
    pub accelerate: bool,
    /// Decelerate (backward) key held.
    pub decelerate: bool,
}

/// The longitudinal transition one frame applies: forward-accelerate if
/// its key is held (forward wins a tie, a documented priority), else
/// backward-accelerate, else coast.
pub open spec fn longitudinal_step(car: Vehicle, input: InputState, dir: Direction) -> Vehicle {
    if input.accelerate {
        car.forwarded(dir)
    } else if input.decelerate {
        car.backwarded(dir)
    } else {
        car.coasted(dir)
    }
}

/// The whole vehicle transition of one frame after steering: the
/// longitudinal step, then a bounce when the obstacle mask reported a
/// contact.
pub open spec fn frame_vehicle_step(
    car: Vehicle,
    input: InputState,
    dir: Direction,
    hit: bool,
) -> Vehicle {
    if hit {
        longitudinal_step(car, input, dir).bounced(dir)
    } else {
        longitudinal_step(car, input, dir)
    }
}

/// Applies the frame's steering: at most one rotation, with left-turn
/// input winning a tie. Called before the direction vector for the
/// (possibly new) heading is computed.
pub fn steer(car: &mut Vehicle, input: InputState)
    requires
        old(car).wf(),
    ensures
        final(car).wf(),
        *final(car) == old(car).rotated(input.turn_left, input.turn_right),
{
    car.rotate(input.turn_left, input.turn_right);
}

/// Advances vehicle and race by one frame, after steering: applies the
/// longitudinal transition chosen by the held keys, bounces when the
/// obstacle mask reported a contact, ticks the race, and returns whether
/// the win banner is shown this frame.
pub fn advance_frame(
    car: &mut Vehicle,
    race: &mut RaceState,
    input: InputState,
    dir: Direction,
    contact: Option<Contact>,
) -> (banner: bool)
    requires
        old(car).wf(),
        old(race).wf(),
        dir.wf(),
    ensures
        final(car).wf(),
        final(race).wf(),
        *final(car) == frame_vehicle_step(*old(car), input, dir, contact is Some),
        *final(race) == old(race).ticked(),
        banner == final(race).banner_visible_spec(),
{
    if input.accelerate {
        car.move_forward(dir);
    } else if input.decelerate {
        car.move_backward(dir);
    } else {
        car.coast(dir);
    }
    if contact.is_some() {
        car.bounce(dir);
    }
    race.tick();
    race.banner_visible()
}

} // verus!
