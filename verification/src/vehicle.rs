//! Vehicle kinematics: one car's motion state and its input-driven
//! transitions (rotate, accelerate forward and backward, coast, bounce,
//! reset).
//!
//! Quantities are fixed-point milli-units (see `fixed`). The heading is
//! stored in milli-degrees, normalized into [0, FULL_TURN); left-turn
//! input increases it, right-turn input decreases it, and only its
//! direction vector is ever read, so the normalization is unobservable.
//!
//! Sign convention: the position update is `pos += velocity * dir / SCALE`
//! where `dir` is the SCALE-scaled unit vector of travel for the current
//! heading, supplied by the caller's direction provider. The convention
//! fixed for the whole program is screen coordinates (y grows downward)
//! with heading 0 pointing up: heading `h` milli-degrees maps to
//! `dir = (-sin(h), -cos(h))` scaled by SCALE, and the sprite is drawn
//! rotated by the negated heading so that it faces the direction of travel.

use crate::fixed::{
    clamp_coord, clamp_coordinate, mag, mul_div_trunc, scaled_trunc, FULL_TURN, POS_LIMIT, SCALE,
    VEL_LIMIT,
};
use vstd::prelude::*;

verus! {

/// Why a vehicle configuration was rejected at construction.
#[derive(Clone, Copy, Debug, PartialEq, Eq, Structural)]
pub enum ConfigError {
    /// `max_forward_velocity` was zero or negative.
    NonPositiveMaxVelocity,
    /// `turn_rate` was negative.
    NegativeTurnRate,
    /// `acceleration_step` was zero or negative.
    NonPositiveAcceleration,
}

/// A SCALE-scaled unit vector giving the direction of travel for the
/// current heading; computed by the caller's trigonometry and handed in.
#[derive(Clone, Copy, Debug, PartialEq, Eq, Structural)]
pub struct Direction {
    /// Horizontal component, in [-SCALE, SCALE].
    pub ux: i64,
    /// Vertical component, in [-SCALE, SCALE].
    pub uy: i64,
}

impl Direction {
    /// Both components are within one scaled unit.
    pub open spec fn wf(self) -> bool {
        &&& -SCALE <= self.ux <= SCALE
        &&& -SCALE <= self.uy <= SCALE
    }
}

/// An axis-aligned rectangle in milli-unit scene coordinates, used for
/// impassable regions and for the vehicle's footprint.
#[derive(Clone, Copy, Debug, PartialEq, Eq, Structural)]
pub struct Rect {
    /// Smallest x coordinate covered.
    pub min_x: i64,
    /// Smallest y coordinate covered.
    pub min_y: i64,
    /// Largest x coordinate covered.
    pub max_x: i64,
    /// Largest y coordinate covered.
    pub max_y: i64,
}

impl Rect {
    /// The bounds are ordered and the corners are representable scene
    /// coordinates (a generous multiple of the position range, so that
    /// footprints spilling past the clamped positions still fit).
    pub open spec fn wf(self) -> bool {
        &&& self.min_x <= self.max_x
        &&& self.min_y <= self.max_y
        &&& -4 * POS_LIMIT <= self.min_x && self.max_x <= 4 * POS_LIMIT
        &&& -4 * POS_LIMIT <= self.min_y && self.max_y <= 4 * POS_LIMIT
    }

    /// Whether two rectangles overlap (sharing a boundary point counts).
    pub open spec fn overlaps(self, other: Rect) -> bool {
        &&& self.min_x <= other.max_x && other.min_x <= self.max_x
        &&& self.min_y <= other.max_y && other.min_y <= self.max_y
    }
}

/// The impassable regions of the track, as a vector obstacle
/// representation: a list of blocked axis-aligned rectangles.
#[derive(Clone, Debug)]
pub struct ObstacleMask {
    /// The blocked regions, tested in order.
    pub blocked: Vec<Rect>,
}

impl ObstacleMask {
    /// Every blocked region is a well-formed rectangle.
    pub open spec fn wf(self) -> bool {
        forall|i: int| 0 <= i < self.blocked@.len() ==> (#[trigger] self.blocked@[i]).wf()
    }
}

/// A point where the vehicle's footprint meets a blocked region, in
/// milli-unit scene coordinates.
#[derive(Clone, Copy, Debug, PartialEq, Eq, Structural)]
pub struct Contact {
    /// Horizontal coordinate of the contact point.
    pub x: i64,
    /// Vertical coordinate of the contact point.
    pub y: i64,
}

/// One car's motion state plus its per-vehicle constants.
#[derive(Clone, Copy, Debug)]
pub struct Vehicle {
    /// Horizontal coordinate, milli-units, origin at scene top-left.
    pub x: i64,
    /// Vertical coordinate, milli-units, growing downward.
    pub y: i64,
    /// Facing angle in milli-degrees, kept in [0, FULL_TURN).
    pub heading: i64,
    /// Signed scalar speed along the heading, milli-units per tick;
    /// positive is forward.
    pub velocity: i64,
    /// Forward speed cap, milli-units per tick; the reverse cap is half of it.
    pub max_forward_velocity: i64,
    /// Speed gained per accelerate call, milli-units per tick.
    pub acceleration_step: i64,
    /// Heading change per rotate call, milli-degrees.
    pub turn_rate: i64,
    /// Spawn coordinates, used by `reset`.
    pub start_x: i64,
    /// Spawn coordinates, used by `reset`.
    pub start_y: i64,
    /// Spawn heading, used by `reset`.
    pub start_heading: i64,
}

impl Vehicle {
    /// Reverse speed cap: half the forward cap.
    pub open spec fn max_reverse_velocity(self) -> int {
        self.max_forward_velocity / 2
    }

    /// Well-formedness: constants are positive and bounded, the heading is
    /// normalized, coordinates are in range, and the velocity respects
    /// `-max_reverse_velocity <= velocity <= max_forward_velocity`.
    pub open spec fn wf(self) -> bool {
        &&& 0 < self.max_forward_velocity <= VEL_LIMIT
        &&& 0 < self.acceleration_step <= VEL_LIMIT
        &&& 0 <= self.turn_rate <= FULL_TURN
        &&& -self.max_reverse_velocity() <= self.velocity <= self.max_forward_velocity
        &&& 0 <= self.heading < FULL_TURN
        &&& 0 <= self.start_heading < FULL_TURN
        &&& -POS_LIMIT <= self.x <= POS_LIMIT
        &&& -POS_LIMIT <= self.y <= POS_LIMIT
        &&& -POS_LIMIT <= self.start_x <= POS_LIMIT
        &&& -POS_LIMIT <= self.start_y <= POS_LIMIT
    }

    /// The motion state a `reset` restores: spawn position and heading,
    /// velocity zero, constants unchanged.
    pub open spec fn spawned(self) -> Vehicle {
        Vehicle { x: self.start_x, y: self.start_y, heading: self.start_heading, velocity: 0, ..self }
    }

    /// Heading after one rotate call: `delta` is added and the result
    /// wrapped back into [0, FULL_TURN).
    pub open spec fn wrapped_heading(h: int, delta: int) -> int {
        if h + delta >= FULL_TURN {
            h + delta - FULL_TURN
        } else if h + delta < 0 {
            h + delta + FULL_TURN
        } else {
            h + delta
        }
    }

    /// Velocity after one forward-accelerate call, capped at `max`.
    pub open spec fn forward_velocity(v: int, step: int, max: int) -> int {
        if v + step >= max {
            max
        } else {
            v + step
        }
    }

    /// Velocity after one backward-accelerate call, capped at `-rev`.
    pub open spec fn backward_velocity(v: int, step: int, rev: int) -> int {
        if v - step <= -rev {
            -rev
        } else {
            v - step
        }
    }

    /// Velocity after one coast call: multiplicative decay by 9/10,
    /// truncating toward zero. Truncation is the epsilon clamp: a
    /// magnitude below one milli-unit becomes exactly zero.
    pub open spec fn coasted_velocity(v: int) -> int {
        scaled_trunc(v, 9, 10)
    }

    /// Velocity after a bounce: half the magnitude, direction reversed.
    pub open spec fn bounced_velocity(v: int) -> int {
        -scaled_trunc(v, 1, 2)
    }

    /// One coordinate after a position update with velocity `v` along the
    /// scaled direction component `u`, clamped into the representable range.
    pub open spec fn moved_coord(c: int, v: int, u: int) -> int {
        clamp_coord(c + scaled_trunc(v, u, SCALE as int))
    }

    /// The state after a position update with the current velocity along
    /// `dir`: both coordinates move by `velocity * dir / SCALE` and are
    /// clamped into the representable range.
    pub open spec fn positioned(self, dir: Direction) -> Vehicle {
        Vehicle {
            x: Vehicle::moved_coord(self.x as int, self.velocity as int, dir.ux as int) as i64,
            y: Vehicle::moved_coord(self.y as int, self.velocity as int, dir.uy as int) as i64,
            ..self
        }
    }

    /// The state after one rotate call: left-turn input wins a tie.
    pub open spec fn rotated(self, turn_left: bool, turn_right: bool) -> Vehicle {
        if turn_left {
            Vehicle {
                heading: Vehicle::wrapped_heading(self.heading as int, self.turn_rate as int) as i64,
                ..self
            }
        } else if turn_right {
            Vehicle {
                heading: Vehicle::wrapped_heading(self.heading as int, -self.turn_rate as int) as i64,
                ..self
            }
        } else {
            self
        }
    }

    /// The state after one forward-accelerate call.
    pub open spec fn forwarded(self, dir: Direction) -> Vehicle {
        Vehicle {
            velocity: Vehicle::forward_velocity(
                self.velocity as int,
                self.acceleration_step as int,
                self.max_forward_velocity as int,
            ) as i64,
            ..self
        }.positioned(dir)
    }

    /// The state after one backward-accelerate call.
    pub open spec fn backwarded(self, dir: Direction) -> Vehicle {
        Vehicle {
            velocity: Vehicle::backward_velocity(
                self.velocity as int,
                self.acceleration_step as int,
                self.max_reverse_velocity(),
            ) as i64,
            ..self
        }.positioned(dir)
    }

    /// The state after one coast call.
    pub open spec fn coasted(self, dir: Direction) -> Vehicle {
        Vehicle { velocity: Vehicle::coasted_velocity(self.velocity as int) as i64, ..self }
            .positioned(dir)
    }

    /// The state after one bounce.
    pub open spec fn bounced(self, dir: Direction) -> Vehicle {
        Vehicle { velocity: Vehicle::bounced_velocity(self.velocity as int) as i64, ..self }
            .positioned(dir)
    }

    /// The vehicle's footprint: the axis-aligned bounding rectangle of a
    /// sprite with half-extents `half_w` and `half_h` (upright at heading
    /// 0), rotated to the current heading, whose trigonometry arrives as
    /// the direction vector `dir`. Centered on the current position.
    pub open spec fn footprint(self, half_w: int, half_h: int, dir: Direction) -> Rect {
        let sx = mag(dir.ux as int);
        let sy = mag(dir.uy as int);
        let hx = (half_w * sy) / (SCALE as int) + (half_h * sx) / (SCALE as int);
        let hy = (half_w * sx) / (SCALE as int) + (half_h * sy) / (SCALE as int);
        Rect {
            min_x: (self.x - hx) as i64,
            min_y: (self.y - hy) as i64,
            max_x: (self.x + hx) as i64,
            max_y: (self.y + hy) as i64,
        }
    }

    /// Where the footprint meets a blocked region: the smallest corner of
    /// the intersection of the two rectangles.
    pub open spec fn contact_at(fp: Rect, blocked: Rect) -> Contact {
        Contact {
            x: if fp.min_x >= blocked.min_x {
                fp.min_x
            } else {
                blocked.min_x
            },
            y: if fp.min_y >= blocked.min_y {
                fp.min_y
            } else {
                blocked.min_y
            },
        }
    }

    /// Tests the vehicle's current footprint against the impassable
    /// regions of `mask`, in order, and returns the first contact point,
    /// or `None` when the footprint overlaps no blocked region. Reads the
    /// state without changing it.
    pub fn collide(
        &self,
        mask: &ObstacleMask,
        half_w: i64,
        half_h: i64,
        dir: Direction,
    ) -> (r: Option<Contact>)
        requires
            self.wf(),
            dir.wf(),
            mask.wf(),
            0 <= half_w <= POS_LIMIT,
            0 <= half_h <= POS_LIMIT,
        ensures
            (r is Some) <==> exists|i: int|
                0 <= i < mask.blocked@.len() && self.footprint(
                    half_w as int,
                    half_h as int,
                    dir,
                ).overlaps(#[trigger] mask.blocked@[i]),
            r is Some ==> exists|i: int|
                {
                    &&& 0 <= i < mask.blocked@.len()
                    &&& self.footprint(half_w as int, half_h as int, dir).overlaps(
                        #[trigger] mask.blocked@[i],
                    )
                    &&& forall|k: int|
                        0 <= k < i ==> !self.footprint(half_w as int, half_h as int, dir).overlaps(
                            #[trigger] mask.blocked@[k],
                        )
                    &&& r == Some(
                        Vehicle::contact_at(
                            self.footprint(half_w as int, half_h as int, dir),
                            mask.blocked@[i],
                        ),
                    )
                },
    {
        let sx = if dir.ux >= 0 {
            dir.ux
        } else {
            -dir.ux
        };
        let sy = if dir.uy >= 0 {
            dir.uy
        } else {
            -dir.uy
        };
        proof {
            lemma_extent_bounded(half_w as int, sx as int);
            lemma_extent_bounded(half_w as int, sy as int);
            lemma_extent_bounded(half_h as int, sx as int);
            lemma_extent_bounded(half_h as int, sy as int);
        }
        let hx = mul_div_trunc(half_w, sy, SCALE) + mul_div_trunc(half_h, sx, SCALE);
        let hy = mul_div_trunc(half_w, sx, SCALE) + mul_div_trunc(half_h, sy, SCALE);
        let fp = Rect {
            min_x: self.x - hx,
            min_y: self.y - hy,
            max_x: self.x + hx,
            max_y: self.y + hy,
        };
        let ghost fp_spec = self.footprint(half_w as int, half_h as int, dir);
        assert(fp == fp_spec);
        let mut i: usize = 0;
        while i < mask.blocked.len()
            invariant
                0 <= i <= mask.blocked@.len(),
                fp == fp_spec,
                fp_spec == self.footprint(half_w as int, half_h as int, dir),
                forall|k: int|
                    0 <= k < i ==> !fp_spec.overlaps(#[trigger] mask.blocked@[k]),
            decreases mask.blocked@.len() - i,
        {
            let b = mask.blocked[i];
            if fp.min_x <= b.max_x && b.min_x <= fp.max_x && fp.min_y <= b.max_y && b.min_y
                <= fp.max_y {
                let cx = if fp.min_x >= b.min_x {
                    fp.min_x
                } else {
                    b.min_x
                };
                let cy = if fp.min_y >= b.min_y {
                    fp.min_y
                } else {
                    b.min_y
                };
                return Some(Contact { x: cx, y: cy });
            }
            i = i + 1;
        }
        None
    }

    /// Builds a vehicle at its spawn point, rejecting malformed physical
    /// constants. Returns `Ok` exactly when `max_forward_velocity` is
    /// positive, `turn_rate` is non-negative and `acceleration_step` is
    /// positive; the errors are reported in that order.
    pub fn new(
        start_x: i64,
        start_y: i64,
        start_heading: i64,
        max_forward_velocity: i64,
        turn_rate: i64,
        acceleration_step: i64,
    ) -> (r: Result<Vehicle, ConfigError>)
        requires
            -POS_LIMIT <= start_x <= POS_LIMIT,
            -POS_LIMIT <= start_y <= POS_LIMIT,
            0 <= start_heading < FULL_TURN,
            max_forward_velocity <= VEL_LIMIT,
            acceleration_step <= VEL_LIMIT,
            turn_rate <= FULL_TURN,
        ensures
            max_forward_velocity <= 0 ==> r == Result::<Vehicle, ConfigError>::Err(
                ConfigError::NonPositiveMaxVelocity,
            ),
            max_forward_velocity > 0 && turn_rate < 0 ==> r == Result::<
                Vehicle,
                ConfigError,
            >::Err(ConfigError::NegativeTurnRate),
            max_forward_velocity > 0 && turn_rate >= 0 && acceleration_step <= 0 ==> r == Result::<
                Vehicle,
                ConfigError,
            >::Err(ConfigError::NonPositiveAcceleration),
            max_forward_velocity > 0 && turn_rate >= 0 && acceleration_step > 0 ==> {
                &&& r is Ok
                &&& r->Ok_0.wf()
                &&& r->Ok_0 == (Vehicle {
                    x: start_x,
                    y: start_y,
                    heading: start_heading,
                    velocity: 0,
                    max_forward_velocity,
                    acceleration_step,
                    turn_rate,
                    start_x,
                    start_y,
                    start_heading,
                })
            },
    {
        if max_forward_velocity <= 0 {
            Err(ConfigError::NonPositiveMaxVelocity)
        } else if turn_rate < 0 {
            Err(ConfigError::NegativeTurnRate)
        } else if acceleration_step <= 0 {
            Err(ConfigError::NonPositiveAcceleration)
        } else {
            Ok(
                Vehicle {
                    x: start_x,
                    y: start_y,
                    heading: start_heading,
                    velocity: 0,
                    max_forward_velocity,
                    acceleration_step,
                    turn_rate,
                    start_x,
                    start_y,
                    start_heading,
                },
            )
        }
    }

    /// Turns the car by one tick's worth of rotation. Left-turn input
    /// wins when both flags are held: left is checked first, a documented
    /// tie-break. Position and velocity are untouched.
    pub fn rotate(&mut self, turn_left: bool, turn_right: bool)
        requires
            old(self).wf(),
        ensures
            final(self).wf(),
            *final(self) == old(self).rotated(turn_left, turn_right),
            turn_left ==> final(self).heading == Vehicle::wrapped_heading(
                old(self).heading as int,
                old(self).turn_rate as int,
            ),
            !turn_left && turn_right ==> final(self).heading == Vehicle::wrapped_heading(
                old(self).heading as int,
                -old(self).turn_rate as int,
            ),
            !turn_left && !turn_right ==> final(self).heading == old(self).heading,
    {
        if turn_left {
            let h = self.heading + self.turn_rate;
            self.heading = if h >= FULL_TURN {
                h - FULL_TURN
            } else {
                h
            };
        } else if turn_right {
            let h = self.heading - self.turn_rate;
            self.heading = if h < 0 {
                h + FULL_TURN
            } else {
                h
            };
        }
    }

    /// Advances the position by the current velocity along `dir`, the
    /// scaled unit vector of travel for the current heading; coordinates
    /// saturate at the representable range. Velocity and heading are
    /// untouched.
    pub fn recompute_position(&mut self, dir: Direction)
        requires
            old(self).wf(),
            dir.wf(),
        ensures
            final(self).wf(),
            *final(self) == old(self).positioned(dir),
            final(self).x == Vehicle::moved_coord(
                old(self).x as int,
                old(self).velocity as int,
                dir.ux as int,
            ),
            final(self).y == Vehicle::moved_coord(
                old(self).y as int,
                old(self).velocity as int,
                dir.uy as int,
            ),
    {
        proof {
            lemma_displacement_bounded(self.velocity as int, dir.ux as int);
            lemma_displacement_bounded(self.velocity as int, dir.uy as int);
        }
        let dx = mul_div_trunc(self.velocity, dir.ux, SCALE);
        let dy = mul_div_trunc(self.velocity, dir.uy, SCALE);
        self.x = clamp_coordinate(self.x + dx);
        self.y = clamp_coordinate(self.y + dy);
    }

    /// Forward-accelerates by one step, capping the velocity at
    /// `max_forward_velocity`, then advances the position with the new
    /// velocity.
    pub fn move_forward(&mut self, dir: Direction)
        requires
            old(self).wf(),
            dir.wf(),
        ensures
            final(self).wf(),
            *final(self) == old(self).forwarded(dir),
            final(self).velocity == Vehicle::forward_velocity(
                old(self).velocity as int,
                old(self).acceleration_step as int,
                old(self).max_forward_velocity as int,
            ),
            final(self).velocity <= old(self).max_forward_velocity,
            final(self).x == Vehicle::moved_coord(
                old(self).x as int,
                final(self).velocity as int,
                dir.ux as int,
            ),
            final(self).y == Vehicle::moved_coord(
                old(self).y as int,
                final(self).velocity as int,
                dir.uy as int,
            ),
    {
        let raised = self.velocity + self.acceleration_step;
        self.velocity = if raised >= self.max_forward_velocity {
            self.max_forward_velocity
        } else {
            raised
        };
        self.recompute_position(dir);
    }

    /// Backward-accelerates by one step, capping the velocity at
    /// `-max_reverse_velocity` (half the forward cap), then advances the
    /// position with the new velocity.
    pub fn move_backward(&mut self, dir: Direction)
        requires
            old(self).wf(),
            dir.wf(),
        ensures
            final(self).wf(),
            *final(self) == old(self).backwarded(dir),
            final(self).velocity == Vehicle::backward_velocity(
                old(self).velocity as int,
                old(self).acceleration_step as int,
                old(self).max_reverse_velocity(),
            ),
            final(self).velocity >= -old(self).max_reverse_velocity(),
            final(self).x == Vehicle::moved_coord(
                old(self).x as int,
                final(self).velocity as int,
                dir.ux as int,
            ),
            final(self).y == Vehicle::moved_coord(
                old(self).y as int,
                final(self).velocity as int,
                dir.uy as int,
            ),
    {
        let reverse_cap = self.max_forward_velocity / 2;
        let lowered = self.velocity - self.acceleration_step;
        self.velocity = if lowered <= -reverse_cap {
            -reverse_cap
        } else {
            lowered
        };
        self.recompute_position(dir);
    }

    /// Coasts for one tick: the velocity decays multiplicatively toward
    /// zero by a factor of 9/10 (truncating toward zero, so a magnitude
    /// below one milli-unit becomes exactly zero), then the position is
    /// advanced with the decayed velocity. The decay is strict: a nonzero
    /// velocity always loses magnitude.
    pub fn coast(&mut self, dir: Direction)
        requires
            old(self).wf(),
            dir.wf(),
        ensures
            final(self).wf(),
            *final(self) == old(self).coasted(dir),
            final(self).velocity == Vehicle::coasted_velocity(old(self).velocity as int),
            old(self).velocity != 0 ==> mag(final(self).velocity as int) < mag(
                old(self).velocity as int,
            ),
            mag(final(self).velocity as int) <= 9 * mag(old(self).velocity as int) / 10,
            old(self).velocity == 0 ==> final(self).velocity == 0,
            final(self).x == Vehicle::moved_coord(
                old(self).x as int,
                final(self).velocity as int,
                dir.ux as int,
            ),
            final(self).y == Vehicle::moved_coord(
                old(self).y as int,
                final(self).velocity as int,
                dir.uy as int,
            ),
    {
        proof {
            lemma_coast_decay(self.velocity as int);
        }
        self.velocity = mul_div_trunc(self.velocity, 9, 10);
        self.recompute_position(dir);
    }

    /// Bounces off an obstacle: the velocity is halved in magnitude and
    /// reversed (an inelastic reversal, not a full stop), then the
    /// position is advanced in the new direction of travel.
    pub fn bounce(&mut self, dir: Direction)
        requires
            old(self).wf(),
            dir.wf(),
        ensures
            final(self).wf(),
            *final(self) == old(self).bounced(dir),
            final(self).velocity == Vehicle::bounced_velocity(old(self).velocity as int),
            final(self).x == Vehicle::moved_coord(
                old(self).x as int,
                final(self).velocity as int,
                dir.ux as int,
            ),
            final(self).y == Vehicle::moved_coord(
                old(self).y as int,
                final(self).velocity as int,
                dir.uy as int,
            ),
    {
        proof {
            lemma_bounce_bound(self.velocity as int, self.max_forward_velocity as int);
        }
        self.velocity = -mul_div_trunc(self.velocity, 1, 2);
        self.recompute_position(dir);
    }

    /// Restores position, heading and velocity exactly to their spawn
    /// values, leaving the per-vehicle constants untouched.
    pub fn reset(&mut self)
        requires
            old(self).wf(),
        ensures
            final(self).wf(),
            *final(self) == old(self).spawned(),
    {
        self.x = self.start_x;
        self.y = self.start_y;
        self.heading = self.start_heading;
        self.velocity = 0;
    }
}

/// Velocity after `n` consecutive forward-accelerate calls.
pub open spec fn forward_velocity_after(v: int, step: int, max: int, n: nat) -> int
    decreases n,
{
    if n == 0 {
        v
    } else {
        Vehicle::forward_velocity(forward_velocity_after(v, step, max, (n - 1) as nat), step, max)
    }
}

/// Velocity after `n` consecutive backward-accelerate calls.
pub open spec fn backward_velocity_after(v: int, step: int, rev: int, n: nat) -> int
    decreases n,
{
    if n == 0 {
        v
    } else {
        Vehicle::backward_velocity(backward_velocity_after(v, step, rev, (n - 1) as nat), step, rev)
    }
}

/// Law: over any sequence of forward-accelerate calls, the velocity never
/// exceeds `max`, the forward cap.
pub proof fn lemma_forward_never_exceeds(v: int, step: int, max: int, n: nat)
    requires
        v <= max,
        step > 0,
    ensures
        forward_velocity_after(v, step, max, n) <= max,
    decreases n,
{
    if n > 0 {
        lemma_forward_never_exceeds(v, step, max, (n - 1) as nat);
    }
}

/// Law: over any sequence of backward-accelerate calls, the velocity never
/// drops below `-rev`, the reverse cap (half the forward cap).
pub proof fn lemma_backward_never_below(v: int, step: int, rev: int, n: nat)
    requires
        v >= -rev,
        step > 0,
    ensures
        backward_velocity_after(v, step, rev, n) >= -rev,
    decreases n,
{
    if n > 0 {
        lemma_backward_never_below(v, step, rev, (n - 1) as nat);
    }
}

/// Law: coasting strictly shrinks the magnitude of any nonzero velocity
/// and drives it geometrically toward zero (by at least a 9/10 factor
/// each call); a zero velocity stays zero.
pub proof fn lemma_coast_strictly_decays(v: int)
    ensures
        v != 0 ==> mag(Vehicle::coasted_velocity(v)) < mag(v),
        mag(Vehicle::coasted_velocity(v)) <= 9 * mag(v) / 10,
        v == 0 ==> Vehicle::coasted_velocity(v) == 0,
{
    if v >= 0 {
        assert(Vehicle::coasted_velocity(v) == 9 * v / 10);
        assert(9 * v / 10 <= v) by (nonlinear_arith)
            requires
                v >= 0,
        ;
        if v != 0 {
            assert(9 * v / 10 < v) by (nonlinear_arith)
                requires
                    v > 0,
            ;
        }
    } else {
        assert(v * 9 == -((-v) * 9)) by (nonlinear_arith);
        assert(Vehicle::coasted_velocity(v) == -((-v) * 9 / 10));
        assert((-v) * 9 / 10 < -v) by (nonlinear_arith)
            requires
                v < 0,
        ;
    }
}

/// Velocity after `n` consecutive coast calls.
pub open spec fn coasted_velocity_after(v: int, n: nat) -> int
    decreases n,
{
    if n == 0 {
        v
    } else {
        Vehicle::coasted_velocity(coasted_velocity_after(v, (n - 1) as nat))
    }
}

/// Law: repeated coasting converges to zero — each call costs at least
/// one milli-unit of magnitude until none is left, so after `mag(v)`
/// calls the velocity is exactly zero and stays there.
pub proof fn lemma_coast_converges_to_zero(v: int, n: nat)
    ensures
        coasted_velocity_after(v, n) == 0 || mag(coasted_velocity_after(v, n)) <= mag(v) - n,
        n >= mag(v) ==> coasted_velocity_after(v, n) == 0,
    decreases n,
{
    if n > 0 {
        lemma_coast_converges_to_zero(v, (n - 1) as nat);
        lemma_coast_strictly_decays(coasted_velocity_after(v, (n - 1) as nat));
    }
}

/// Law: resetting twice is the same as resetting once — the spawn state
/// is a fixed point of `reset`.
pub proof fn lemma_reset_idempotent(v: Vehicle)
    ensures
        v.spawned().spawned() == v.spawned(),
{
}

/// A footprint half-extent term never overflows: a bounded length times
/// a scaled trigonometric magnitude stays far inside i64.
proof fn lemma_extent_bounded(a: int, s: int)
    requires
        0 <= a <= POS_LIMIT,
        0 <= s <= SCALE,
    ensures
        mag(a * s) <= POS_LIMIT * SCALE,
        0 <= a * s,
{
    assert(0 <= a * s <= POS_LIMIT * SCALE) by (nonlinear_arith)
        requires
            0 <= a <= POS_LIMIT,
            0 <= s <= SCALE,
    ;
}

/// A displacement of one tick never overflows: with a bounded velocity
/// and a scaled-unit direction component, `v * u` stays far inside i64.
proof fn lemma_displacement_bounded(v: int, u: int)
    requires
        -VEL_LIMIT <= v <= VEL_LIMIT,
        -SCALE <= u <= SCALE,
    ensures
        mag(v * u) <= VEL_LIMIT * SCALE,
{
    assert(mag(v * u) <= VEL_LIMIT * SCALE) by (nonlinear_arith)
        requires
            -VEL_LIMIT <= v <= VEL_LIMIT,
            -SCALE <= u <= SCALE,
    ;
}

/// A bounded velocity neither overflows the decay computation nor
/// changes sign under it; the decay itself is `lemma_coast_strictly_decays`.
proof fn lemma_coast_decay(v: int)
    requires
        -VEL_LIMIT <= v <= VEL_LIMIT,
    ensures
        mag(v * 9) <= i64::MAX,
        mag(Vehicle::coasted_velocity(v)) <= 9 * mag(v) / 10,
        v != 0 ==> mag(Vehicle::coasted_velocity(v)) < mag(v),
        v == 0 ==> Vehicle::coasted_velocity(v) == 0,
        v >= 0 ==> Vehicle::coasted_velocity(v) >= 0,
        v <= 0 ==> Vehicle::coasted_velocity(v) <= 0,
{
    lemma_coast_strictly_decays(v);
    assert(mag(v * 9) <= VEL_LIMIT * 9) by (nonlinear_arith)
        requires
            -VEL_LIMIT <= v <= VEL_LIMIT,
    ;
    if v < 0 {
        assert(v * 9 == -((-v) * 9)) by (nonlinear_arith);
    }
}

/// A halved, reversed velocity stays within the caps of a well-formed
/// vehicle.
proof fn lemma_bounce_bound(v: int, max: int)
    requires
        0 < max <= VEL_LIMIT,
        -(max / 2) <= v <= max,
    ensures
        mag(v * 1) <= i64::MAX,
        -(max / 2) <= Vehicle::bounced_velocity(v) <= max,
{
    assert(v * 1 == v) by (nonlinear_arith);
    if v >= 0 {
        assert(Vehicle::bounced_velocity(v) == -(v / 2));
        assert(v / 2 <= max / 2) by (nonlinear_arith)
            requires
                0 <= v <= max,
        ;
    } else {
        assert(Vehicle::bounced_velocity(v) == (-v) / 2);
        assert((-v) / 2 <= max) by (nonlinear_arith)
            requires
                -(max / 2) <= v < 0,
                0 < max,
        ;
    }
}

} // verus!
