use vstd::prelude::*;

verus! {

/// How long the follow-through of a swing lasts, in microseconds.
pub const SWING_TIME: u64 = 300_000;

/// Longest swing time that a weapon may be given, in microseconds.
pub const MAX_SWING_TIME: u64 = 10_000_000;

/// Full wind-up, in thousandths of the wind-up angle's unit.
pub const FULL_BACKSWING: u64 = 500;

/// A mouse event that the weapon reacts to.
#[derive(Clone, Copy, Debug, PartialEq, Eq, Structural)]
pub enum SwingInput {
    /// The swing button went down.
    Press,
    /// Any other button event: a held swing is let go.
    Release,
}

/// The weapon's swing: wound up while held, striking while it follows
/// through, alternating direction from one swing to the next.
#[derive(Clone, Copy, Debug, PartialEq, Eq, Structural)]
pub struct WeaponPivot {
    /// Microseconds left in the follow-through.
    pub time_left: u64,
    pub max_time: u64,
    /// How far the weapon is wound up, in thousandths (up to `FULL_BACKSWING`).
    pub backswing: u64,
    pub held: bool,
    pub swinging: bool,
    /// The weapon can strike.
    pub active: bool,
    pub clockwise_swing: bool,
}

/// The wind-up after `dt` microseconds of holding: it closes on the full
/// wind-up at four times the remaining gap per second.
pub open spec fn wound_up(b: u64, dt: u64) -> u64 {
    let next = b + (FULL_BACKSWING - b) * dt * 4 / 1_000_000;
    if next > FULL_BACKSWING {
        FULL_BACKSWING
    } else {
        next as u64
    }
}

impl WeaponPivot {
    pub open spec fn wf(self) -> bool {
        &&& 0 < self.max_time <= MAX_SWING_TIME
        &&& self.time_left <= MAX_SWING_TIME
        &&& self.backswing <= FULL_BACKSWING
    }

    /// A weapon at rest, ready to swing clockwise.
    pub fn new() -> (r: WeaponPivot)
        ensures
            r.wf(),
            r == (WeaponPivot {
                time_left: 0,
                max_time: SWING_TIME,
                backswing: 0,
                held: false,
                swinging: false,
                active: false,
                clockwise_swing: true,
            }),
    {
        WeaponPivot {
            time_left: 0,
            max_time: SWING_TIME,
            backswing: 0,
            held: false,
            swinging: false,
            active: false,
            clockwise_swing: true,
        }
    }

    /// A press starts winding up a new swing unless the player is stunned
    /// or a swing is under way; any other event lets a wound-up swing go,
    /// which makes it strike.
    pub fn handle_input(&mut self, input: SwingInput, stunned: bool)
        requires
            old(self).wf(),
        ensures
            final(self).wf(),
            input == SwingInput::Press && !stunned && !old(self).swinging ==> *final(self) == (
            WeaponPivot { time_left: old(self).max_time, held: true, swinging: true, ..*old(self) }),
            input == SwingInput::Release && old(self).swinging && !old(self).active ==> *final(self)
                == (WeaponPivot { held: false, active: true, ..*old(self) }),
            !(input == SwingInput::Press && !stunned && !old(self).swinging) && !(input
                == SwingInput::Release && old(self).swinging && !old(self).active) ==> *final(self)
                == *old(self),
    {
        match input {
            SwingInput::Press => {
                if !stunned && !self.swinging {
                    self.time_left = self.max_time;
                    self.held = true;
                    self.swinging = true;
                }
            },
            SwingInput::Release => {
                if self.swinging && !self.active {
                    self.held = false;
                    self.active = true;
                }
            },
        }
    }

    /// Runs the swing for a frame of `dt` microseconds: a held weapon winds
    /// up; a released one follows through, and when the follow-through ends
    /// the weapon rests, unwound, facing the other way.
    pub fn tick(&mut self, dt: u64)
        requires
            old(self).wf(),
            dt <= MAX_SWING_TIME,
        ensures
            final(self).wf(),
            old(self).held ==> *final(self) == (WeaponPivot {
                backswing: wound_up(old(self).backswing, dt),
                ..*old(self)
            }),
            !old(self).held && old(self).swinging && old(self).time_left > dt ==> *final(self) == (
            WeaponPivot { time_left: (old(self).time_left - dt) as u64, ..*old(self) }),
            !old(self).held && old(self).swinging && old(self).time_left <= dt ==> *final(self) == (
            WeaponPivot {
                time_left: 0,
                swinging: false,
                active: false,
                backswing: 0,
                clockwise_swing: !old(self).clockwise_swing,
                ..*old(self)
            }),
            !old(self).held && !old(self).swinging ==> *final(self) == *old(self),
    {
        if self.held {
            proof {
                crate::geometry::lemma_mul_bound(
                    (FULL_BACKSWING - self.backswing) as int,
                    dt as int,
                    500,
                    10_000_000,
                );
            }
            let next = self.backswing + (FULL_BACKSWING - self.backswing) * dt * 4 / 1_000_000;
            self.backswing = if next > FULL_BACKSWING {
                FULL_BACKSWING
            } else {
                next
            };
        } else if self.swinging {
            self.time_left = self.time_left.saturating_sub(dt);
            if self.time_left == 0 {
                self.swinging = false;
                self.active = false;
                self.backswing = 0;
                self.clockwise_swing = !self.clockwise_swing;
            }
        }
    }

    /// How much of the follow-through is done, in thousandths.
    pub fn progress(&self) -> (r: u64)
        requires
            self.wf(),
        ensures
            self.time_left >= self.max_time ==> r == 0,
            self.time_left < self.max_time ==> r == (self.max_time - self.time_left) * 1000
                / self.max_time as int,
            r <= 1000,
    {
        if self.time_left >= self.max_time {
            0
        } else {
            let done = self.max_time - self.time_left;
            proof {
                vstd::arithmetic::div_mod::lemma_div_is_ordered(
                    done * 1000,
                    self.max_time * 1000,
                    self.max_time as int,
                );
                vstd::arithmetic::div_mod::lemma_div_by_multiple(1000, self.max_time as int);
                assert(self.max_time * 1000 == 1000 * self.max_time) by (nonlinear_arith);
            }
            done * 1000 / self.max_time
        }
    }
}

} // verus!
