use vstd::prelude::*;

verus! {

/// Fixed-point units in one cell of the screen grid (vertical axis).
pub const CELL: i64 = 10;

/// Downward speed gained by each physics step, in units per step.
pub const GRAVITY: i64 = 2;

/// Gravity stops accelerating the player once this speed is reached.
pub const TERMINAL_VELOCITY: i64 = 20;

/// The speed a flap sets: upward, so negative.
pub const FLAP_VELOCITY: i64 = -20;

/// The player's glyph: `x` in whole cells, `y` and `velocity` in units.
#[derive(Clone, Copy, Debug, PartialEq, Eq, Structural)]
pub struct Player {
    pub x: i64,
    pub y: i64,
    pub velocity: i64,
}

/// Velocity after one physics step.
pub open spec fn velocity_after_gravity(v: int) -> int {
    if v < TERMINAL_VELOCITY {
        v + GRAVITY
    } else {
        v
    }
}

/// Height after one physics step: moved by the new velocity, never below 0.
pub open spec fn y_after_gravity(y: int, v: int) -> int {
    let moved = y + velocity_after_gravity(v);
    if moved < 0 {
        0
    } else {
        moved
    }
}

impl Player {
    /// One physics step of `self`, stated over integers.
    pub open spec fn stepped(self) -> Player {
        Player {
            x: (self.x + 1) as i64,
            y: y_after_gravity(self.y as int, self.velocity as int) as i64,
            velocity: velocity_after_gravity(self.velocity as int) as i64,
        }
    }

    /// `self` after a flap.
    pub open spec fn flapped(self) -> Player {
        Player { velocity: FLAP_VELOCITY, ..self }
    }

    /// A step of `self` stays within `i64`.
    pub open spec fn can_step(self) -> bool {
        self.x < i64::MAX && i64::MIN <= self.y + velocity_after_gravity(self.velocity as int)
            <= i64::MAX
    }

    pub fn new(x: i64, y: i64) -> (p: Player)
        ensures
            p == (Player { x, y, velocity: 0 }),
    {
        Player { x, y, velocity: 0 }
    }

    /// Accelerates downward up to the terminal speed, moves by the new speed,
    /// advances one cell to the right and keeps the height at 0 or above.
    pub fn gravity_and_move(&mut self)
        requires
            old(self).can_step(),
        ensures
            *final(self) == old(self).stepped(),
            old(self).velocity < TERMINAL_VELOCITY ==> final(self).velocity == old(self).velocity
                + GRAVITY,
            old(self).velocity >= TERMINAL_VELOCITY ==> final(self).velocity == old(self).velocity,
            final(self).y >= 0,
            final(self).x == old(self).x + 1,
    {
        if self.velocity < TERMINAL_VELOCITY {
            self.velocity = self.velocity + GRAVITY;
        }
        self.y = self.y + self.velocity;
        self.x = self.x + 1;
        if self.y < 0 {
            self.y = 0;
        }
    }

    /// Sets the speed to the flap speed, whatever it was.
    pub fn flap(&mut self)
        ensures
            *final(self) == old(self).flapped(),
            final(self).velocity == FLAP_VELOCITY,
            final(self).x == old(self).x,
            final(self).y == old(self).y,
    {
        self.velocity = FLAP_VELOCITY;
    }
}

/// A flap sets the flap speed whatever the speed was, so a second flap in a
/// row changes nothing more.
pub proof fn flap_idempotent(p: Player)
    ensures
        p.flapped().velocity == FLAP_VELOCITY,
        p.flapped().flapped() == p.flapped(),
{
}

/// Below the terminal speed a step adds exactly `GRAVITY`; at or above it the
/// speed is left alone.
pub proof fn gravity_velocity(p: Player)
    requires
        p.can_step(),
    ensures
        p.velocity < TERMINAL_VELOCITY ==> p.stepped().velocity == p.velocity + GRAVITY,
        p.velocity >= TERMINAL_VELOCITY ==> p.stepped().velocity == p.velocity,
{
}

/// No run of steps and flaps takes the height below 0: a step ends at 0 or
/// above, and a flap keeps the height.
pub proof fn height_never_negative(p: Player)
    requires
        p.can_step(),
    ensures
        p.stepped().y >= 0,
        p.flapped().y == p.y,
{
}

} // verus!
