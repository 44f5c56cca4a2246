//! Obstacles: a wall with a gap that scrolls towards the player.

use vstd::prelude::*;
use vstd::math::abs;
use bracket_lib::prelude::RandomNumberGenerator;
use crate::player::{Player, PlayerModel};
use crate::random::range_i64;
use crate::units::{
    BASE_GAP, GAP_CENTER_MAX, GAP_CENTER_MIN, MIN_GAP, OBSTACLE_VEL, SPEED_SCALE, UNITS_PER_CELL,
};

verus! {

/// A wall across the whole height of the screen, open between
/// `gap_y - size / 2` and `gap_y + size / 2`.
#[derive(Clone, Copy, Debug, PartialEq, Eq)]
pub struct Obstacle {
    x: i64,
    gap_y: i64,
    size: i64,
    score: u32,
    collided: bool,
}

/// What an `Obstacle` stands for.
pub struct ObstacleModel {
    /// Column of the wall.
    pub x: int,
    /// Row of the middle of the gap.
    pub gap_y: int,
    /// Height of the gap.
    pub size: int,
    /// The score at the time the obstacle was made.
    pub score: int,
    /// Whether the last collision check found the player in the wall.
    pub collided: bool,
}

impl View for Obstacle {
    type V = ObstacleModel;

    closed spec fn view(&self) -> ObstacleModel {
        ObstacleModel {
            x: self.x as int,
            gap_y: self.gap_y as int,
            size: self.size as int,
            score: self.score as int,
            collided: self.collided,
        }
    }
}

/// Height of the gap of an obstacle made at `score`: one cell less per point,
/// but never under `MIN_GAP`.
pub open spec fn gap_size_for(score: int) -> int {
    if BASE_GAP - score * UNITS_PER_CELL < MIN_GAP {
        MIN_GAP as int
    } else {
        BASE_GAP - score * UNITS_PER_CELL
    }
}

/// Horizontal velocity of an obstacle made at `score`.
pub open spec fn velocity_for(score: int) -> int {
    OBSTACLE_VEL - score * SPEED_SCALE
}

/// Whether `gap_y` is a row that the middle of a gap can have.
pub open spec fn valid_gap_center(gap_y: int) -> bool {
    GAP_CENTER_MIN <= gap_y < GAP_CENTER_MAX
}

/// The obstacle made at column `x` and at `score`, with its gap around `gap_y`.
pub open spec fn spawned(x: int, score: int, gap_y: int) -> ObstacleModel {
    ObstacleModel { x, gap_y, size: gap_size_for(score), score, collided: false }
}

/// Whether an obstacle is one that `spawned` makes, moved or not.
pub open spec fn valid_obstacle(o: ObstacleModel) -> bool {
    &&& 0 <= o.score <= u32::MAX
    &&& o.size == gap_size_for(o.score)
    &&& valid_gap_center(o.gap_y)
}

/// Whether the obstacle is at or right of the player's column and will be at
/// or left of it after this frame's move.
pub open spec fn crossing(o: ObstacleModel, p: PlayerModel) -> bool {
    o.x >= p.x && o.x + velocity_for(o.score) <= p.x
}

/// Whether the player's row lies in the gap, its two edges included.
pub open spec fn in_gap(o: ObstacleModel, p: PlayerModel) -> bool {
    o.gap_y - o.size / 2 <= p.y <= o.gap_y + o.size / 2
}

/// Whether the obstacle hits the player in this frame.
pub open spec fn hits(o: ObstacleModel, p: PlayerModel) -> bool {
    crossing(o, p) && !in_gap(o, p)
}

/// The obstacle after one frame: stopped and marked where it hits the player,
/// moved by its velocity where it does not.
pub open spec fn after_check(o: ObstacleModel, p: PlayerModel) -> ObstacleModel {
    if hits(o, p) {
        ObstacleModel { collided: true, ..o }
    } else {
        ObstacleModel { x: o.x + velocity_for(o.score), collided: false, ..o }
    }
}

/// The gap is never lower than `MIN_GAP`, at whatever score the obstacle is
/// made.
pub proof fn gap_never_closes(score: int)
    ensures
        gap_size_for(score) >= MIN_GAP,
        score >= 0 ==> gap_size_for(score) <= BASE_GAP,
{
}

/// Obstacles do not get slower as the score grows: of two scores, the higher
/// gives a speed at least as high, and the velocity points left at both.
pub proof fn speed_grows_with_score(lower: int, higher: int)
    requires
        0 <= lower <= higher,
    ensures
        velocity_for(higher) <= velocity_for(lower) < 0,
        abs(velocity_for(lower)) <= abs(velocity_for(higher)),
{
}

/// An obstacle that is about to pass the player's column hits a player whose
/// row is outside the gap, and stays where it is; it does not hit a player
/// whose row is inside the gap or on one of its edges, and moves on.
pub proof fn crossing_decides_collision(o: ObstacleModel, p: PlayerModel)
    requires
        o.x >= p.x,
        o.x + velocity_for(o.score) <= p.x,
    ensures
        p.y < o.gap_y - o.size / 2 || p.y > o.gap_y + o.size / 2 ==> after_check(o, p)
            == (ObstacleModel { collided: true, ..o }),
        o.gap_y - o.size / 2 <= p.y <= o.gap_y + o.size / 2 ==> after_check(o, p)
            == (ObstacleModel { x: o.x + velocity_for(o.score), collided: false, ..o }),
{
}

/// An obstacle that does not pass the player's column in this frame moves on
/// without a collision, wherever the player is.
pub proof fn no_collision_without_crossing(o: ObstacleModel, p: PlayerModel)
    requires
        o.x < p.x || o.x + velocity_for(o.score) > p.x,
    ensures
        after_check(o, p) == (ObstacleModel {
            x: o.x + velocity_for(o.score),
            collided: false,
            ..o
        }),
{
}

/// Number of whole rows, counted from row 0, that the wall fills above the gap.
pub open spec fn upper_wall_rows(o: ObstacleModel) -> int {
    (o.gap_y - o.size / 2) / (UNITS_PER_CELL as int)
}

/// First row of the wall under the gap; from there the wall reaches the
/// bottom of the screen.
pub open spec fn lower_wall_row(o: ObstacleModel) -> int {
    (o.gap_y + o.size / 2) / (UNITS_PER_CELL as int)
}

impl Obstacle {
    /// The gap has the height that the obstacle's score gives, and its middle
    /// is in the allowed band.
    pub open spec fn wf(&self) -> bool {
        valid_obstacle(self@)
    }

    /// An obstacle at column `x`, made at `score`, with its gap around row
    /// `gap_center`.
    pub fn with_gap(x: i64, score: u32, gap_center: i64) -> (obstacle: Obstacle)
        requires
            valid_gap_center(gap_center as int),
        ensures
            obstacle@ == spawned(x as int, score as int, gap_center as int),
            obstacle.wf(),
    {
        let narrowed: i64 = BASE_GAP - (score as i64) * UNITS_PER_CELL;
        let size: i64 = if narrowed < MIN_GAP {
            MIN_GAP
        } else {
            narrowed
        };
        Obstacle { x, gap_y: gap_center, size, score, collided: false }
    }

    /// An obstacle at column `x`, made at `score`, with its gap around a row
    /// drawn at random.
    pub fn new(x: i64, score: u32) -> (obstacle: Obstacle)
        ensures
            valid_gap_center(obstacle@.gap_y),
            obstacle@ == spawned(x as int, score as int, obstacle@.gap_y),
            obstacle.wf(),
    {
        let mut random = RandomNumberGenerator::new();
        let gap_center: i64 = range_i64(&mut random, GAP_CENTER_MIN, GAP_CENTER_MAX);
        Obstacle::with_gap(x, score, gap_center)
    }

    /// The obstacle of `with_gap` where a row is given, that of `new` where
    /// none is.
    pub(crate) fn spawn(x: i64, score: u32, gap_center: Option<i64>) -> (obstacle: Obstacle)
        requires
            gap_center matches Some(g) ==> valid_gap_center(g as int),
        ensures
            valid_gap_center(obstacle@.gap_y),
            gap_center matches Some(g) ==> obstacle@.gap_y == g,
            obstacle@ == spawned(x as int, score as int, obstacle@.gap_y),
            obstacle.wf(),
    {
        match gap_center {
            Some(g) => Obstacle::with_gap(x, score, g),
            None => Obstacle::new(x, score),
        }
    }

    /// The column.
    pub fn x(&self) -> (x: i64)
        ensures
            x == self@.x,
    {
        self.x
    }

    /// The row of the middle of the gap.
    pub fn gap_center(&self) -> (gap_y: i64)
        ensures
            gap_y == self@.gap_y,
    {
        self.gap_y
    }

    /// The height of the gap.
    pub fn size(&self) -> (size: i64)
        ensures
            size == self@.size,
    {
        self.size
    }

    /// Half the height of the gap: how far the gap reaches from its middle.
    pub fn half_size(&self) -> (half: i64)
        requires
            self.wf(),
        ensures
            half == self@.size / 2,
    {
        self.size / 2
    }

    /// The score at the time the obstacle was made.
    pub fn score(&self) -> (score: u32)
        ensures
            score == self@.score,
    {
        self.score
    }

    /// Whether the last collision check found the player in the wall.
    pub fn collided(&self) -> (collided: bool)
        ensures
            collided == self@.collided,
    {
        self.collided
    }

    /// The rows of the wall, in whole cells: how many rows it fills from row
    /// 0 down to the gap, and the row in which it starts again under the gap.
    pub fn wall_rows(&self) -> (rows: (i64, i64))
        requires
            self.wf(),
        ensures
            rows.0 == upper_wall_rows(self@),
            rows.1 == lower_wall_row(self@),
            0 <= rows.0 <= rows.1,
    {
        let half_size: i64 = self.size / 2;
        ((self.gap_y - half_size) / UNITS_PER_CELL, (self.gap_y + half_size) / UNITS_PER_CELL)
    }

    /// The horizontal velocity: the same for as long as the obstacle lives.
    pub fn vel(&self) -> (v: i64)
        ensures
            v == velocity_for(self@.score),
    {
        OBSTACLE_VEL - (self.score as i64) * SPEED_SCALE
    }

    /// Moves the obstacle by one frame of its velocity.
    pub fn move_velocity(&mut self)
        requires
            old(self)@.x + velocity_for(old(self)@.score) >= i64::MIN,
        ensures
            final(self)@ == (ObstacleModel {
                x: old(self)@.x + velocity_for(old(self)@.score),
                ..old(self)@
            }),
    {
        self.x = self.x + self.vel();
    }

    /// One frame of the obstacle. Where it is about to pass the player's
    /// column and the player is not in the gap, it stops and is marked as
    /// collided; otherwise it moves on.
    pub fn check_collision_and_move(&mut self, player: &Player)
        requires
            old(self).wf(),
            old(self)@.x + velocity_for(old(self)@.score) >= i64::MIN,
        ensures
            final(self)@ == after_check(old(self)@, player@),
            final(self).wf(),
    {
        let half_size: i64 = self.size / 2;
        let will_cross_player: bool = self.x >= player.x() && self.x + self.vel() <= player.x();
        let player_above_gap: bool = player.y() < self.gap_y - half_size;
        let player_below_gap: bool = player.y() > self.gap_y + half_size;

        let will_collide: bool = will_cross_player && (player_above_gap || player_below_gap);
        self.collided = will_collide;
        if !will_collide {
            self.move_velocity();
        }
    }
}

} // verus!
