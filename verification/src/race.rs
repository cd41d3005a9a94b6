//! Race progress: lap count, the one-way win flag, and the sawtooth
//! blink counter that times the win banner.
//!
//! The lap count is raised by an external lap trigger; this state machine
//! only reacts to its value. Once it reaches the lap target the race is
//! won and stays won; from then on every frame advances the blink
//! counter through a fixed sawtooth (up one per tick to 21, then a drop
//! of 40 to -19), and the banner is visible on the frames where the
//! counter's truncated division by 15 is even — an on/off cadence of 15
//! ticks.

use vstd::prelude::*;

verus! {

/// Lap progress and win-banner timing for one race.
pub struct RaceState {
    /// Laps completed so far; raised only by `record_lap`.
    pub lap_count: u32,
    /// Laps needed to win, fixed at construction.
    pub lap_target: u32,
    /// Whether the race has been won; never reverts within a race.
    pub won: bool,
    /// Sawtooth counter driving the banner blink; advances only once won.
    pub blink_counter: i32,
}

impl RaceState {
    /// The blink counter stays inside the sawtooth's range.
    pub open spec fn wf(self) -> bool {
        -19 <= self.blink_counter <= 21
    }

    /// The blink counter after one tick of a won race: up by one while at
    /// most 20, otherwise (above 20, hence above 5) down by 40. The two
    /// overlapping guards are the sawtooth as specified; a counter both
    /// above 20 and at most 5 cannot occur, so the final branch is inert.
    pub open spec fn next_blink(c: int) -> int {
        if c <= 20 {
            c + 1
        } else if c > 5 {
            c - 40
        } else {
            c
        }
    }

    /// Whether the banner is shown: only once won, and then exactly on
    /// the frames where the counter lies in [-14, 14] — the range on
    /// which `(c / 15) % 2 == 0` under machine (truncating) division,
    /// given the sawtooth's bounds.
    pub open spec fn banner_visible_spec(self) -> bool {
        self.won && -14 <= self.blink_counter <= 14
    }

    /// The state after one frame: the win flag latches once the lap count
    /// has reached the target, and while won the blink counter steps
    /// through its sawtooth.
    pub open spec fn ticked(self) -> RaceState {
        let now_won = self.won || self.lap_count >= self.lap_target;
        RaceState {
            won: now_won,
            blink_counter: if now_won {
                RaceState::next_blink(self.blink_counter as int) as i32
            } else {
                self.blink_counter
            },
            ..self
        }
    }

    /// The state after `n` frames.
    pub open spec fn ticked_n(self, n: nat) -> RaceState
        decreases n,
    {
        if n == 0 {
            self
        } else {
            self.ticked_n((n - 1) as nat).ticked()
        }
    }

    /// Starts a fresh race needing `lap_target` laps: no laps yet, not
    /// won, blink counter at zero.
    pub fn new(lap_target: u32) -> (r: RaceState)
        ensures
            r.wf(),
            r.lap_count == 0,
            r.lap_target == lap_target,
            !r.won,
            r.blink_counter == 0,
    {
        RaceState { lap_count: 0, lap_target, won: false, blink_counter: 0 }
    }

    /// Records one completed lap, reported by the external lap trigger.
    /// The count is monotonic and saturates at the representable maximum.
    pub fn record_lap(&mut self)
        requires
            old(self).wf(),
        ensures
            final(self).wf(),
            final(self).lap_count == if old(self).lap_count < u32::MAX {
                old(self).lap_count + 1
            } else {
                old(self).lap_count as int
            },
            final(self).lap_target == old(self).lap_target,
            final(self).won == old(self).won,
            final(self).blink_counter == old(self).blink_counter,
    {
        if self.lap_count < u32::MAX {
            self.lap_count = self.lap_count + 1;
        }
    }

    /// Advances the race by one frame: the win flag latches once the lap
    /// count has reached the target (and never clears), and while won the
    /// blink counter steps through its sawtooth.
    pub fn tick(&mut self)
        requires
            old(self).wf(),
        ensures
            final(self).wf(),
            *final(self) == old(self).ticked(),
    {
        if self.lap_count >= self.lap_target {
            self.won = true;
        }
        if self.won {
            if self.blink_counter <= 20 {
                self.blink_counter = self.blink_counter + 1;
            } else if self.blink_counter > 5 {
                self.blink_counter = self.blink_counter - 40;
            }
        }
    }

    /// Whether the win banner is shown this frame: won, and the counter's
    /// truncated division by 15 is even.
    pub fn banner_visible(&self) -> (r: bool)
        requires
            self.wf(),
        ensures
            r == self.banner_visible_spec(),
    {
        let c = self.blink_counter;
        let q: i32 = if c >= 0 {
            c / 15
        } else {
            -(-c / 15)
        };
        let r: i32 = if q >= 0 {
            q % 2
        } else {
            -(-q % 2)
        };
        self.won && r == 0
    }
}

/// Law: the win flag is one-way — once a race is won, no number of
/// further ticks un-wins it, whatever the lap count and target.
pub proof fn lemma_won_is_latched(s: RaceState, n: nat)
    requires
        s.won,
    ensures
        s.ticked_n(n).won,
    decreases n,
{
    if n > 0 {
        lemma_won_is_latched(s, (n - 1) as nat);
    }
}

} // verus!
