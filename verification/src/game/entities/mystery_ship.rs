//! The bonus ship that crosses the top of the screen.

use crate::utils::position::Position;
use crate::utils::units::{plus, times, PIXEL};
use vstd::prelude::*;

verus! {

/// How far past a side of the screen the ship flies before it is gone.
pub const MYSTERY_MARGIN: i64 = 50 * PIXEL;

/// Frames per second at which `MysteryShip::speed` is counted.
pub const FRAMES_PER_SECOND: i64 = 60;

/// The bonus ship. `speed` is in pixels per frame at `FRAMES_PER_SECOND`,
/// `direction` is positive to the right and negative to the left, and
/// `points` is what a hit is worth.
#[derive(Clone, Copy, PartialEq, Eq, Debug, Structural)]
pub struct MysteryShip {
    pub position: Position,
    pub width: i64,
    pub height: i64,
    pub speed: i64,
    pub active: bool,
    pub direction: i64,
    pub points: i32,
}

impl MysteryShip {
    /// The ship before it enters: inactive, left of the screen.
    pub open spec fn parked() -> MysteryShip {
        MysteryShip {
            position: Position { x: (-50 * PIXEL) as i64, y: (10 * PIXEL) as i64 },
            width: (60 * PIXEL) as i64,
            height: (20 * PIXEL) as i64,
            speed: 4,
            active: false,
            direction: 1,
            points: 100,
        }
    }

    /// How far the ship flies in `dt` microseconds, in micro-pixels.
    pub open spec fn flight(self, dt: i64) -> i64 {
        times(times(times(self.speed, self.direction), dt), FRAMES_PER_SECOND)
    }

    /// The ship at `x` is past the side of a screen of width `game_width`
    /// that it flies towards, by more than `MYSTERY_MARGIN`.
    pub open spec fn gone_at(self, x: i64, game_width: i64) -> bool {
        ||| self.direction > 0 && x > game_width + MYSTERY_MARGIN
        ||| self.direction < 0 && x < -MYSTERY_MARGIN
    }

    /// The ship `dt` microseconds later. An inactive ship stays as it is; an
    /// active one flies on and turns inactive once it is gone.
    pub open spec fn flown(self, dt: i64, game_width: i64) -> MysteryShip {
        if !self.active {
            self
        } else {
            let x = plus(self.position.x, self.flight(dt));
            MysteryShip {
                position: Position { x, y: self.position.y },
                active: !self.gone_at(x, game_width),
                ..self
            }
        }
    }

    /// An inactive ship left of the screen.
    pub fn new() -> (ship: Self)
        ensures
            ship == MysteryShip::parked(),
    {
        Self {
            position: Position::new(-50 * PIXEL, 10 * PIXEL),
            width: 60 * PIXEL,
            height: 20 * PIXEL,
            speed: 4,
            active: false,
            direction: 1,
            points: 100,
        }
    }

    /// Lets `dt` microseconds pass on a screen of width `game_width`.
    pub fn update(&mut self, dt: i64, game_width: i64)
        ensures
            *final(self) == old(self).flown(dt, game_width),
    {
        if !self.active {
            return ;
        }
        let flight = times(times(times(self.speed, self.direction), dt), FRAMES_PER_SECOND);
        self.position.x = plus(self.position.x, flight);
        let x: i128 = self.position.x as i128;
        if (self.direction > 0 && x > game_width as i128 + MYSTERY_MARGIN as i128) || (self.direction
            < 0 && x < -(MYSTERY_MARGIN as i128)) {
            self.active = false;
        }
    }
}

} // verus!
