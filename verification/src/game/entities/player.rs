//! The player's ship.

use crate::utils::position::Position;
use crate::utils::units::{half, minus, plus, times, PIXEL};
use vstd::prelude::*;

verus! {

/// The player's ship. `position.x` is the middle of the ship and `speed` is
/// in pixels per second.
#[derive(Clone, Copy, PartialEq, Eq, Debug, Structural)]
pub struct Player {
    pub position: Position,
    pub width: i64,
    pub height: i64,
    /// Where a projectile leaves the ship, relative to `position`.
    pub projectile_spawn_x: i64,
    pub projectile_spawn_y: i64,
    pub speed: i64,
    /// Set while the ship is drawn as hit.
    pub is_hit: bool,
    pub hit_animation_time: i64,
}

impl Player {
    /// The ship at the start of a session: at the middle of the bottom of
    /// the screen, 50 by 30 pixels, moving 200 pixels per second and firing
    /// from 15 pixels above its position.
    pub open spec fn at_start() -> Player {
        Player {
            position: Position { x: (512 * PIXEL) as i64, y: (690 * PIXEL) as i64 },
            width: (50 * PIXEL) as i64,
            height: (30 * PIXEL) as i64,
            projectile_spawn_x: 0,
            projectile_spawn_y: (-15 * PIXEL) as i64,
            speed: 200,
            is_hit: false,
            hit_animation_time: 0,
        }
    }

    /// The least `x` that keeps the whole ship right of `left_boundary`.
    pub open spec fn left_limit(self, left_boundary: i64) -> i64 {
        plus(left_boundary, half(self.width))
    }

    /// The greatest `x` that keeps the whole ship left of `right_boundary`.
    pub open spec fn right_limit(self, right_boundary: i64) -> i64 {
        minus(right_boundary, half(self.width))
    }

    /// The ship after it has moved left for `dt` microseconds: `speed * dt`
    /// further left, but not past `left_limit`.
    pub open spec fn moved_left(self, dt: i64, left_boundary: i64) -> Player {
        let target = minus(self.position.x, times(self.speed, dt));
        let limit = self.left_limit(left_boundary);
        Player {
            position: Position { x: if target >= limit { target } else { limit }, y: self.position.y },
            ..self
        }
    }

    /// The ship after it has moved right for `dt` microseconds: `speed * dt`
    /// further right, but not past `right_limit`.
    pub open spec fn moved_right(self, dt: i64, right_boundary: i64) -> Player {
        let target = plus(self.position.x, times(self.speed, dt));
        let limit = self.right_limit(right_boundary);
        Player {
            position: Position { x: if target <= limit { target } else { limit }, y: self.position.y },
            ..self
        }
    }

    /// Where a projectile of this ship starts.
    pub open spec fn muzzle(self) -> (i64, i64) {
        (
            plus(self.position.x, self.projectile_spawn_x),
            plus(self.position.y, self.projectile_spawn_y),
        )
    }

    /// Moves the ship left for `dt` microseconds, stopping where its left
    /// half would cross `left_boundary`.
    pub fn move_left(&mut self, dt: i64, left_boundary: i64)
        ensures
            *final(self) == old(self).moved_left(dt, left_boundary),
            final(self).position.x >= old(self).left_limit(left_boundary),
    {
        let target = minus(self.position.x, times(self.speed, dt));
        let limit = plus(left_boundary, half(self.width));
        self.position.x = if target >= limit { target } else { limit };
    }

    /// Moves the ship right for `dt` microseconds, stopping where its right
    /// half would cross `right_boundary`.
    pub fn move_right(&mut self, dt: i64, right_boundary: i64)
        ensures
            *final(self) == old(self).moved_right(dt, right_boundary),
            final(self).position.x <= old(self).right_limit(right_boundary),
    {
        let target = plus(self.position.x, times(self.speed, dt));
        let limit = minus(right_boundary, half(self.width));
        self.position.x = if target <= limit { target } else { limit };
    }

    /// Where a projectile of this ship starts: `position` moved by the spawn
    /// offset.
    pub fn get_projectile_spawn_position(&self) -> (spawn: (i64, i64))
        ensures
            spawn == self.muzzle(),
    {
        (
            plus(self.position.x, self.projectile_spawn_x),
            plus(self.position.y, self.projectile_spawn_y),
        )
    }
}

impl Default for Player {
    fn default() -> (p: Self)
        ensures
            p == Player::at_start(),
    {
        Self {
            position: Position::new(512 * PIXEL, 690 * PIXEL),
            width: 50 * PIXEL,
            height: 30 * PIXEL,
            speed: 200,
            is_hit: false,
            hit_animation_time: 0,
            projectile_spawn_x: 0,
            projectile_spawn_y: -15 * PIXEL,
        }
    }
}

/// A ship between its two limits that moves for a time that is not negative,
/// at a speed that is not negative, is between its limits afterwards,
/// whichever way it moves.
pub proof fn law_player_stays_between_limits(p: Player, dt: i64, left_boundary: i64, right_boundary: i64)
    requires
        dt >= 0,
        p.speed >= 0,
        p.left_limit(left_boundary) <= p.position.x <= p.right_limit(right_boundary),
    ensures
        p.left_limit(left_boundary) <= p.moved_left(dt, left_boundary).position.x <= p.right_limit(
            right_boundary,
        ),
        p.left_limit(left_boundary) <= p.moved_right(dt, right_boundary).position.x
            <= p.right_limit(right_boundary),
{
    assert(p.speed * dt >= 0) by (nonlinear_arith)
        requires
            p.speed >= 0,
            dt >= 0,
    ;
}

/// Where the limits themselves are in range, they are half a width inside
/// the boundaries: after a move to the left the ship's `x` is at least
/// `left_boundary + width / 2`, and after a move to the right at most
/// `right_boundary - width / 2`, for every `dt`.
pub proof fn law_player_limits(p: Player, dt: i64, left_boundary: i64, right_boundary: i64)
    ensures
        left_boundary + p.width / 2 <= i64::MAX ==> p.moved_left(dt, left_boundary).position.x
            >= left_boundary + p.width / 2,
        right_boundary - p.width / 2 >= i64::MIN ==> p.moved_right(dt, right_boundary).position.x
            <= right_boundary - p.width / 2,
{
}

} // verus!
