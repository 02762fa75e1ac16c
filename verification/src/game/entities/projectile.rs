//! Projectiles, fired upwards by the player and downwards by aliens.

use crate::game::entities::alien::Alien;
use crate::game::entities::player::Player;
use crate::utils::position::Position;
use crate::utils::units::{half, minus, plus, times, PIXEL};
use vstd::prelude::*;

verus! {

/// Width of every projectile.
pub const PROJECTILE_WIDTH: i64 = 3 * PIXEL;

/// Height of every projectile.
pub const PROJECTILE_HEIGHT: i64 = 15 * PIXEL;

/// Velocity of the player's projectiles, in pixels per second: upwards.
pub const PLAYER_PROJECTILE_VELOCITY: i64 = -400;

/// Velocity of the aliens' projectiles, in pixels per second: downwards.
pub const ALIEN_PROJECTILE_VELOCITY: i64 = 200;

/// A projectile. `position` is its top left corner and `velocity` is
/// vertical, in pixels per second.
#[derive(Clone, Copy, PartialEq, Eq, Debug, Structural)]
pub struct Projectile {
    pub position: Position,
    pub velocity: i64,
    pub width: i64,
    pub height: i64,
    pub is_player_projectile: bool,
}

impl Projectile {
    /// The projectile that starts at `(x, y)`: its owner fixes its velocity.
    pub open spec fn fired(x: i64, y: i64, is_player_projectile: bool) -> Projectile {
        Projectile {
            position: Position { x, y },
            velocity: if is_player_projectile {
                PLAYER_PROJECTILE_VELOCITY
            } else {
                ALIEN_PROJECTILE_VELOCITY
            },
            width: PROJECTILE_WIDTH,
            height: PROJECTILE_HEIGHT,
            is_player_projectile,
        }
    }

    /// The projectile that the player's ship fires.
    pub open spec fn fired_by_player(player: Player) -> Projectile {
        Projectile::fired(player.muzzle().0, player.muzzle().1, true)
    }

    /// The projectile that an alien drops: from the middle of its lower edge.
    pub open spec fn fired_by_alien(alien: Alien) -> Projectile {
        Projectile::fired(
            minus(plus(alien.position.x, half(alien.width)), half(PROJECTILE_WIDTH)),
            plus(alien.position.y, alien.height),
            false,
        )
    }

    /// The projectile `dt` microseconds later.
    pub open spec fn moved(self, dt: i64) -> Projectile {
        Projectile {
            position: Position {
                x: self.position.x,
                y: plus(self.position.y, times(self.velocity, dt)),
            },
            ..self
        }
    }

    /// The projectile has left the screen: a player's projectile when all of
    /// it is above the top edge, an alien's when its top is below the line
    /// `screen_height`.
    pub open spec fn off_screen(self, screen_height: i64) -> bool {
        if self.is_player_projectile {
            self.position.y < -self.height
        } else {
            self.position.y > screen_height
        }
    }

    /// A projectile that starts at `(x, y)`.
    pub fn new(x: i64, y: i64, is_player_projectile: bool) -> (p: Self)
        ensures
            p == Projectile::fired(x, y, is_player_projectile),
    {
        Self {
            position: Position::new(x, y),
            velocity: if is_player_projectile {
                PLAYER_PROJECTILE_VELOCITY
            } else {
                ALIEN_PROJECTILE_VELOCITY
            },
            width: PROJECTILE_WIDTH,
            height: PROJECTILE_HEIGHT,
            is_player_projectile,
        }
    }

    /// The projectile that `player` fires.
    pub fn player(player: &Player) -> (p: Self)
        ensures
            p == Projectile::fired_by_player(*player),
    {
        let (x, y) = player.get_projectile_spawn_position();
        Self::new(x, y, true)
    }

    /// The projectile that `alien` drops.
    pub fn alien(alien: &Alien) -> (p: Self)
        ensures
            p == Projectile::fired_by_alien(*alien),
    {
        let x = minus(plus(alien.position.x, half(alien.width)), half(PROJECTILE_WIDTH));
        let y = plus(alien.position.y, alien.height);
        Self::new(x, y, false)
    }

    /// Moves the projectile by its velocity times `dt` microseconds.
    pub fn update(&mut self, dt: i64)
        ensures
            *final(self) == old(self).moved(dt),
    {
        self.position.y = plus(self.position.y, times(self.velocity, dt));
    }

    /// Whether the projectile has left the screen.
    pub fn is_off_screen(&self, screen_height: i64) -> (off: bool)
        ensures
            off == self.off_screen(screen_height),
    {
        if self.is_player_projectile {
            (self.position.y as i128) < -(self.height as i128)
        } else {
            self.position.y > screen_height
        }
    }
}

} // verus!
