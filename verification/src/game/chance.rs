//! What chance decides in a tick, and the draws that decide it.
//!
//! Every rule that depends on chance takes its draws as arguments, so that
//! a caller who supplies them decides the outcome. The functions here make
//! the draws from the thread's random number generator.

use crate::utils::units::SECOND;
use rand::Rng;
use vstd::prelude::*;

verus! {

/// The least time that the aliens wait after a shot.
pub const ALIEN_COOLDOWN_MIN: i64 = 500_000;

/// The time that the aliens' wait after a shot stays below.
pub const ALIEN_COOLDOWN_MAX: i64 = 2_000_000;

/// The least time between a decision on the bonus ship and the next one.
pub const MYSTERY_DELAY_MIN: i64 = 15 * SECOND;

/// The time that the wait for the next decision stays below.
pub const MYSTERY_DELAY_MAX: i64 = 30 * SECOND;

/// The bonus ship appears in `MYSTERY_ODDS` of `MYSTERY_ODDS_OF` decisions.
pub const MYSTERY_ODDS: u32 = 7;

/// See `MYSTERY_ODDS`.
pub const MYSTERY_ODDS_OF: u32 = 10;

/// The bonus ship is worth a multiple of this many points.
pub const MYSTERY_POINT_STEP: i32 = 50;

/// The greatest multiple of `MYSTERY_POINT_STEP` that the ship is worth.
pub const MYSTERY_POINT_STEPS: u64 = 6;

/// What chance decides when the wait for the bonus ship is over.
#[derive(Clone, Copy, PartialEq, Eq, Debug, Structural)]
pub struct MysteryDraw {
    /// The wait for the next decision.
    pub delay: i64,
    /// Whether the ship appears.
    pub appears: bool,
    /// Whether it enters from the left.
    pub from_left: bool,
    /// What it is worth.
    pub points: i32,
}

impl MysteryDraw {
    /// The draw is one that the game's own generator can make: the delay is
    /// at least `MYSTERY_DELAY_MIN` and below `MYSTERY_DELAY_MAX`, and a
    /// ship that appears is worth one to `MYSTERY_POINT_STEPS` times
    /// `MYSTERY_POINT_STEP`.
    pub open spec fn in_range(self) -> bool {
        &&& MYSTERY_DELAY_MIN <= self.delay < MYSTERY_DELAY_MAX
        &&& self.appears ==> {
            &&& MYSTERY_POINT_STEP <= self.points <= MYSTERY_POINT_STEPS * MYSTERY_POINT_STEP
            &&& self.points % MYSTERY_POINT_STEP == 0
        }
    }
}

/// What chance decides in one tick. A draw that the tick has no use for is
/// ignored.
#[derive(Clone, Copy, PartialEq, Eq, Debug, Structural)]
pub struct Draws {
    /// Which alien fires: the living one with this many living ones before
    /// it, counted round the formation.
    pub shooter: usize,
    /// The aliens' wait after their shot.
    pub alien_cooldown: i64,
    pub mystery: MysteryDraw,
}

impl Draws {
    /// The draws are ones that the game's own generator can make.
    pub open spec fn in_range(self) -> bool {
        &&& ALIEN_COOLDOWN_MIN <= self.alien_cooldown < ALIEN_COOLDOWN_MAX
        &&& self.mystery.in_range()
    }
}

/// A number below `n`, from `rand::Rng::gen_range` on the half-open range
/// from 0 to `n` with the generator of `rand::thread_rng`. The contract
/// claims that the number is in the range, as the crate documents, and
/// nothing about which one it is. An empty range, which makes the call
/// panic, is left out; that the generator panics where the system gives it
/// no seed is beyond any argument.
#[verifier::external_body]
fn random_below(n: u64) -> (r: u64)
    requires
        n > 0,
    ensures
        r < n,
{
    rand::thread_rng().gen_range(0..n)
}

/// A flag that is set with a chance of `numerator` in `denominator`, from
/// `rand::Rng::gen_ratio` with the generator of `rand::thread_rng`. The
/// contract claims the two sure cases that the crate documents: the flag is
/// set when the two numbers are equal and clear when `numerator` is 0. The
/// arguments on which the call panics are left out; that the generator
/// panics where the system gives it no seed is beyond any argument.
#[verifier::external_body]
fn random_chance(numerator: u32, denominator: u32) -> (r: bool)
    requires
        0 < denominator,
        numerator <= denominator,
    ensures
        numerator == denominator ==> r,
        numerator == 0 ==> !r,
{
    rand::thread_rng().gen_ratio(numerator, denominator)
}

/// Draws which of `living` aliens fires.
pub fn draw_shooter(living: usize) -> (shooter: usize)
    requires
        living > 0,
    ensures
        shooter < living,
{
    random_below(living as u64) as usize
}

/// Draws the aliens' wait after a shot.
pub fn draw_alien_cooldown() -> (cooldown: i64)
    ensures
        ALIEN_COOLDOWN_MIN <= cooldown < ALIEN_COOLDOWN_MAX,
{
    ALIEN_COOLDOWN_MIN + random_below((ALIEN_COOLDOWN_MAX - ALIEN_COOLDOWN_MIN) as u64) as i64
}

/// Draws what happens when the wait for the bonus ship is over. The side
/// and the worth of the ship are drawn only where it appears.
pub fn draw_mystery() -> (draw: MysteryDraw)
    ensures
        draw.in_range(),
{
    let delay = MYSTERY_DELAY_MIN + random_below((MYSTERY_DELAY_MAX - MYSTERY_DELAY_MIN) as u64) as i64;
    if random_chance(MYSTERY_ODDS, MYSTERY_ODDS_OF) {
        let from_left = random_chance(1, 2);
        let steps = 1 + random_below(MYSTERY_POINT_STEPS);
        let points = (steps as i32) * MYSTERY_POINT_STEP;
        MysteryDraw { delay, appears: true, from_left, points }
    } else {
        MysteryDraw { delay, appears: false, from_left: false, points: 0 }
    }
}

} // verus!
