//! The player: a position and a vertical velocity.

use vstd::prelude::*;
use crate::units::{FLAP_VEL, GRAVITY, TERMINAL_VEL};

verus! {

/// The player. Its column never changes; its row follows its velocity, which
/// is negative while it climbs.
#[derive(Clone, Copy, Debug, PartialEq, Eq)]
pub struct Player {
    x: i64,
    y: i64,
    velocity: i64,
}

/// What a `Player` stands for: its position and velocity as integers.
pub struct PlayerModel {
    pub x: int,
    pub y: int,
    pub velocity: int,
}

impl View for Player {
    type V = PlayerModel;

    closed spec fn view(&self) -> PlayerModel {
        PlayerModel { x: self.x as int, y: self.y as int, velocity: self.velocity as int }
    }
}

/// A velocity cut off at terminal velocity.
pub open spec fn clamp_velocity(vel: int) -> int {
    if vel > TERMINAL_VEL {
        TERMINAL_VEL as int
    } else {
        vel
    }
}

/// The velocity after one frame of gravity.
pub open spec fn after_gravity(vel: int) -> int {
    clamp_velocity(vel + GRAVITY)
}

/// The velocity after `frames` frames of gravity.
pub open spec fn gravity_n(vel: int, frames: nat) -> int
    decreases frames,
{
    if frames == 0 {
        vel
    } else {
        after_gravity(gravity_n(vel, (frames - 1) as nat))
    }
}

/// The row reached from row `y` after one frame at velocity `vel`: the top of
/// the screen stops the player.
pub open spec fn after_move(y: int, vel: int) -> int {
    if y + vel < 0 {
        0
    } else {
        y + vel
    }
}

/// The player after one logical frame: gravity first, then the move at the
/// new velocity.
pub open spec fn after_frame(p: PlayerModel) -> PlayerModel {
    let velocity = after_gravity(p.velocity);
    PlayerModel { y: after_move(p.y, velocity), velocity, ..p }
}

/// Gravity never takes a velocity that is at most terminal velocity over it.
/// After `frames` frames the velocity has grown by `GRAVITY` for each frame,
/// cut off at terminal velocity: once that is reached, it stays.
pub proof fn gravity_converges(vel: int, frames: nat)
    requires
        vel <= TERMINAL_VEL,
    ensures
        gravity_n(vel, frames) <= TERMINAL_VEL,
        gravity_n(vel, frames) == clamp_velocity(vel + frames * GRAVITY),
        vel + frames * GRAVITY >= TERMINAL_VEL ==> gravity_n(vel, frames) == TERMINAL_VEL,
    decreases frames,
{
    if frames > 0 {
        gravity_converges(vel, (frames - 1) as nat);
    }
}

/// A move never takes the player above row 0, wherever it was and whatever
/// its velocity.
pub proof fn move_stays_on_screen(y: int, vel: int)
    ensures
        after_move(y, vel) >= 0,
        y + vel >= 0 ==> after_move(y, vel) == y + vel,
{
}

impl Player {
    /// Velocity is at most terminal velocity.
    pub open spec fn wf(&self) -> bool {
        self@.velocity <= TERMINAL_VEL
    }

    /// A player at rest at column `x`, row `y`.
    pub fn new(x: i64, y: i64) -> (player: Player)
        ensures
            player@ == (PlayerModel { x: x as int, y: y as int, velocity: 0 }),
            player.wf(),
    {
        Player { x, y, velocity: 0 }
    }

    /// The column.
    pub fn x(&self) -> (x: i64)
        ensures
            x == self@.x,
    {
        self.x
    }

    /// The row.
    pub fn y(&self) -> (y: i64)
        ensures
            y == self@.y,
    {
        self.y
    }

    /// The vertical velocity.
    pub fn velocity(&self) -> (velocity: i64)
        ensures
            velocity == self@.velocity,
    {
        self.velocity
    }

    /// Sets the velocity to `vel`, or to terminal velocity where `vel` is over it.
    pub fn set_velocity(&mut self, vel: i64)
        ensures
            final(self)@ == (PlayerModel { velocity: clamp_velocity(vel as int), ..old(self)@ }),
            final(self).wf(),
    {
        if vel > TERMINAL_VEL {
            self.velocity = TERMINAL_VEL;
        } else {
            self.velocity = vel;
        }
    }

    /// One frame of gravity.
    pub fn apply_gravity(&mut self)
        requires
            old(self).wf(),
        ensures
            final(self)@ == (PlayerModel {
                velocity: after_gravity(old(self)@.velocity),
                ..old(self)@
            }),
            final(self).wf(),
    {
        self.set_velocity(self.velocity + GRAVITY);
    }

    /// A flap: whatever the velocity was, it is now `FLAP_VEL`.
    pub fn apply_flap(&mut self)
        ensures
            final(self)@ == (PlayerModel { velocity: FLAP_VEL as int, ..old(self)@ }),
            final(self).wf(),
    {
        self.set_velocity(FLAP_VEL);
    }

    /// Moves the player by one frame of its velocity, stopping at row 0. The
    /// velocity is kept even where the move was cut short.
    pub fn move_velocity(&mut self)
        requires
            i64::MIN <= old(self)@.y + old(self)@.velocity <= i64::MAX,
        ensures
            final(self)@ == (PlayerModel {
                y: after_move(old(self)@.y, old(self)@.velocity),
                ..old(self)@
            }),
            final(self)@.y >= 0,
    {
        let new_y: i64 = self.y + self.velocity;
        if new_y < 0 {
            self.y = 0;
        } else {
            self.y = new_y;
        }
    }
}

} // verus!
