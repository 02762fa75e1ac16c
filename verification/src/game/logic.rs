//! The rules of the game: what one tick does to the state, part by part.

use crate::game::chance::{draw_alien_cooldown, draw_mystery, draw_shooter, MysteryDraw};
use crate::game::chance::{ALIEN_COOLDOWN_MAX, ALIEN_COOLDOWN_MIN, MYSTERY_DELAY_MIN};
use crate::game::collision::{
    check_alien_collisions, check_mystery_ship_collisions, check_player_collisions,
    check_shield_projectile_collisions, collisions_resolved, rects_overlap, strikes_ship, INVINCIBILITY,
};
use crate::game::entities::alien::{
    interval_for, living, lowest_y, nth_living, step_interval, Alien, AlienFormation, FormationView,
    FORMATION_INTERVAL, FORMATION_SPEED, GAME_WIDTH,
};
use crate::game::entities::mystery_ship::MysteryShip;
use crate::game::laws::{law_collisions_keep_score, lemma_destruction_keeps_score, score_kept};
use crate::game::entities::player::Player;
use crate::game::entities::projectile::Projectile;
use crate::game::state::{GameScreen, GameState, GameView};
use crate::utils::position::Position;
use crate::utils::units::{count_plus, minus, PIXEL};
use vstd::prelude::*;

verus! {

/// Height of the playfield: an alien's projectile is gone once it is below.
pub const GAME_HEIGHT: i64 = 700 * PIXEL;

/// The length of one phase of the blinking of a player who was hit.
pub const BLINK: i64 = 100_000;

/// The player's wait after a shot.
pub const PLAYER_COOLDOWN: i64 = 500_000;

/// The game is over once a step brings the formation down to this line.
pub const INVASION_LINE: i64 = 550 * PIXEL;

/// The game is over once the formation is this close above the player.
pub const PLAYER_CLEARANCE: i64 = 50 * PIXEL;

/// Where a bonus ship that enters from the right starts.
pub const MYSTERY_RIGHT_START: i64 = 850 * PIXEL;

/// Where a bonus ship that enters from the left starts.
pub const MYSTERY_LEFT_START: i64 = -50 * PIXEL;

/// The state with `points` more on the score, and with a high score that is
/// no less than the score.
pub open spec fn scored(s: GameView, points: i32) -> GameView {
    let score = count_plus(s.score, points);
    GameView { score, high_score: if score > s.high_score { score } else { s.high_score }, ..s }
}

/// There is an alien at `index` and it lives.
pub open spec fn can_destroy(s: GameView, index: int) -> bool {
    0 <= index < s.alien_formation.aliens.len() && s.alien_formation.aliens[index].is_alive
}

/// The state after the alien at `index` has been destroyed. The alien stays
/// in its place, dead; its points go to the score; and the formation counts
/// one more kill and, while an alien is left, waits `interval_for` the
/// remaining ones between two steps. Where `can_destroy` does not hold,
/// nothing changes.
pub open spec fn alien_destroyed(s: GameView, index: int) -> GameView {
    if !can_destroy(s, index) {
        s
    } else {
        let f = s.alien_formation;
        let alien = f.aliens[index];
        let aliens = f.aliens.update(index, Alien { is_alive: false, ..alien });
        let left = living(aliens);
        GameView {
            alien_formation: FormationView {
                aliens,
                aliens_killed: if f.aliens_killed == usize::MAX {
                    usize::MAX
                } else {
                    (f.aliens_killed + 1) as usize
                },
                move_interval: if left > 0 {
                    interval_for(left, aliens.len()) as i64
                } else {
                    f.move_interval
                },
                ..f
            },
            ..scored(s, alien.alien_type.points())
        }
    }
}

/// Adds `points` to the score and raises the high score to it.
pub fn add_score(game_state: &mut GameState, points: i32)
    ensures
        final(game_state)@ == scored(old(game_state)@, points),
        old(game_state)@.wf() ==> final(game_state)@.wf(),
{
    game_state.score = count_plus(game_state.score, points);
    if game_state.score > game_state.high_score {
        game_state.high_score = game_state.score;
    }
}

/// Destroys the alien at `alien_index`. Returns whether there was a living
/// alien at that index; where there was none, the state stays as it is.
pub fn destroy_alien(game_state: &mut GameState, alien_index: usize) -> (destroyed: bool)
    ensures
        destroyed == can_destroy(old(game_state)@, alien_index as int),
        final(game_state)@ == alien_destroyed(old(game_state)@, alien_index as int),
        score_kept(old(game_state)@, final(game_state)@),
        old(game_state)@.wf() ==> final(game_state)@.wf(),
{
    proof {
        lemma_destruction_keeps_score(game_state@, alien_index as int);
    }
    if alien_index >= game_state.alien_formation.aliens.len()
        || !game_state.alien_formation.aliens[alien_index].is_alive {
        return false;
    }
    game_state.alien_formation.aliens[alien_index].is_alive = false;
    let points = game_state.alien_formation.aliens[alien_index].alien_type.points();
    add_score(game_state, points);
    if game_state.alien_formation.aliens_killed < usize::MAX {
        game_state.alien_formation.aliens_killed += 1;
    }
    let living_count = game_state.alien_formation.count_living();
    if living_count > 0 {
        let total_aliens = game_state.alien_formation.aliens.len();
        game_state.alien_formation.move_interval = step_interval(living_count, total_aliens);
    }
    true
}

/// Whether `projectile` hits the bonus ship. A hit takes the ship off the
/// screen and returns what it was worth; a miss changes nothing.
pub fn check_mystery_ship_hit(mystery_ship: &mut Option<MysteryShip>, projectile: &Projectile) -> (points:
    Option<i32>)
    ensures
        strikes_ship(*projectile, *old(mystery_ship)) ==> *final(mystery_ship) is None && points == Some(
            old(mystery_ship)->0.points,
        ),
        !strikes_ship(*projectile, *old(mystery_ship)) ==> *final(mystery_ship) == *old(mystery_ship)
            && points is None,
{
    match *mystery_ship {
        Some(ship) => {
            if !ship.active || !projectile.is_player_projectile {
                return None;
            }
            if rects_overlap(
                projectile.position.x,
                projectile.position.y,
                projectile.width,
                projectile.height,
                ship.position.x,
                ship.position.y,
                ship.width,
                ship.height,
            ) {
                *mystery_ship = None;
                return Some(ship.points);
            }
            None
        },
        None => None,
    }
}


// ------------------------------------------------------------------- player

/// Whether a player who was hit is drawn as hit when the countdown of the
/// invincibility stands at `timer`: in every other phase of length `BLINK`
/// since the hit, starting with the first.
pub open spec fn blinks(timer: i64) -> bool {
    (minus(INVINCIBILITY, timer) as int / BLINK as int) % 2 == 0
}

/// Whether a player who was hit is drawn as hit.
pub fn blink_on(timer: i64) -> (on: bool)
    ensures
        on == blinks(timer),
{
    let elapsed: i128 = minus(INVINCIBILITY, timer) as i128;
    let phase: i128 = if elapsed >= 0 {
        elapsed / (BLINK as i128)
    } else {
        (elapsed - (BLINK as i128 - 1)) / (BLINK as i128)
    };
    phase % 2 == 0
}

/// The state after the player's part of a tick of `dt` microseconds. The
/// ship moves left while the left key is held and right while the right key
/// is held, between the sides of the playfield. While the player is
/// invincible the countdown runs and the ship blinks; after that it is
/// drawn as not hit.
pub open spec fn player_updated(s: GameView, dt: i64) -> GameView {
    let at_left = if s.key_states.left {
        s.player.moved_left(dt, 0)
    } else {
        s.player
    };
    let moved = if s.key_states.right {
        at_left.moved_right(dt, GAME_WIDTH)
    } else {
        at_left
    };
    if s.invincibility_timer > 0 {
        let timer = minus(s.invincibility_timer, dt);
        GameView { player: Player { is_hit: blinks(timer), ..moved }, invincibility_timer: timer, ..s }
    } else {
        GameView { player: Player { is_hit: false, ..moved }, ..s }
    }
}

/// Moves the player's ship by the keys that are held, and lets the
/// invincibility run down.
pub fn update_player(game_state: &mut GameState, delta_time: i64)
    ensures
        final(game_state)@ == player_updated(old(game_state)@, delta_time),
        old(game_state)@.wf() ==> final(game_state)@.wf(),
{
    if game_state.key_states.left {
        game_state.player.move_left(delta_time, 0);
    }
    if game_state.key_states.right {
        game_state.player.move_right(delta_time, GAME_WIDTH);
    }
    if game_state.invincibility_timer > 0 {
        game_state.invincibility_timer = minus(game_state.invincibility_timer, delta_time);
        game_state.player.is_hit = blink_on(game_state.invincibility_timer);
    } else {
        game_state.player.is_hit = false;
    }
}

// ---------------------------------------------------------------- formation

/// The state after the formation's part of a tick of `dt` microseconds. The
/// formation waits or steps; a step that brings a living alien down to
/// `INVASION_LINE` ends the game.
pub open spec fn aliens_updated(s: GameView, dt: i64) -> GameView {
    let formation = s.alien_formation.after(dt);
    GameView {
        alien_formation: formation,
        game_over: s.game_over || (s.alien_formation.step_due(dt) && lowest_y(formation.aliens)
            >= INVASION_LINE),
        ..s
    }
}

/// Lets the formation wait or step.
pub fn update_aliens(game_state: &mut GameState, delta_time: i64)
    ensures
        final(game_state)@ == aliens_updated(old(game_state)@, delta_time),
        old(game_state)@.wf() ==> final(game_state)@.wf(),
{
    if game_state.alien_formation.advance(delta_time) {
        let lowest_y = game_state.alien_formation.get_lowest_y();
        if lowest_y >= INVASION_LINE {
            game_state.game_over = true;
        }
    }
}

// ----------------------------------------------------------------- shooting

/// What is left of a cooldown that stands at `cooldown` after `dt`
/// microseconds: one that has run out stays where it is.
pub open spec fn cooled(cooldown: i64, dt: i64) -> i64 {
    if cooldown > 0 {
        minus(cooldown, dt)
    } else {
        cooldown
    }
}

/// The state after the player's chance to fire in a tick of `dt`
/// microseconds. While the fire key is held and the cooldown has run out,
/// the ship fires one projectile and waits `PLAYER_COOLDOWN`.
pub open spec fn player_shot(s: GameView, dt: i64) -> GameView {
    let cooldown = cooled(s.player_shoot_cooldown, dt);
    if s.key_states.shift && cooldown <= 0 {
        GameView {
            player_projectiles: s.player_projectiles.push(Projectile::fired_by_player(s.player)),
            player_shoot_cooldown: PLAYER_COOLDOWN,
            ..s
        }
    } else {
        GameView { player_shoot_cooldown: cooldown, ..s }
    }
}

/// Lets the player's cooldown run and fires where the player may and will.
pub fn handle_player_shooting(game_state: &mut GameState, delta_time: i64)
    ensures
        final(game_state)@ == player_shot(old(game_state)@, delta_time),
        old(game_state)@.wf() ==> final(game_state)@.wf(),
{
    if game_state.player_shoot_cooldown > 0 {
        game_state.player_shoot_cooldown = minus(game_state.player_shoot_cooldown, delta_time);
    }
    if game_state.key_states.shift && game_state.player_shoot_cooldown <= 0 {
        let projectile = Projectile::player(&game_state.player);
        game_state.player_projectiles.push(projectile);
        game_state.player_shoot_cooldown = PLAYER_COOLDOWN;
    }
}

/// Whether the aliens fire in a tick of `dt` microseconds: their cooldown
/// has run out and one of them lives.
pub open spec fn alien_shot_due(s: GameView, dt: i64) -> bool {
    cooled(s.alien_shoot_cooldown, dt) <= 0 && living(s.alien_formation.aliens) > 0
}

/// The state after the aliens' chance to fire in a tick of `dt`
/// microseconds. Where a shot is due, the living alien with
/// `shooter` living ones before it, counted round the formation, drops a
/// projectile, and the aliens wait `cooldown`.
pub open spec fn alien_shot(s: GameView, dt: i64, shooter: usize, cooldown: i64) -> GameView {
    if alien_shot_due(s, dt) {
        let aliens = s.alien_formation.aliens;
        let k = (shooter as nat) % living(aliens);
        let firing = aliens[nth_living(aliens, k)];
        GameView {
            alien_projectiles: s.alien_projectiles.push(Projectile::fired_by_alien(firing)),
            alien_shoot_cooldown: cooldown,
            ..s
        }
    } else {
        GameView { alien_shoot_cooldown: cooled(s.alien_shoot_cooldown, dt), ..s }
    }
}

/// Lets the aliens' cooldown run and, where a shot is due, lets the alien
/// that `shooter` picks fire and sets the cooldown to `cooldown`.
pub fn alien_shooting_with(game_state: &mut GameState, delta_time: i64, shooter: usize, cooldown: i64)
    ensures
        final(game_state)@ == alien_shot(old(game_state)@, delta_time, shooter, cooldown),
        old(game_state)@.wf() ==> final(game_state)@.wf(),
{
    if game_state.alien_shoot_cooldown > 0 {
        game_state.alien_shoot_cooldown = minus(game_state.alien_shoot_cooldown, delta_time);
    }
    if game_state.alien_shoot_cooldown <= 0 {
        let living_count = game_state.alien_formation.count_living();
        if living_count > 0 {
            let index = game_state.alien_formation.find_living(shooter % living_count);
            let projectile = Projectile::alien(&game_state.alien_formation.aliens[index]);
            game_state.alien_projectiles.push(projectile);
            game_state.alien_shoot_cooldown = cooldown;
        }
    }
}

/// Lets the aliens' cooldown run and, where a shot is due, lets one of the
/// living aliens fire, each with the same chance, and draws the cooldown.
pub fn handle_alien_shooting(game_state: &mut GameState, delta_time: i64)
    ensures
        exists|shooter: usize, cooldown: i64|
            {
                &&& shooter < living(old(game_state)@.alien_formation.aliens) || !alien_shot_due(
                    old(game_state)@,
                    delta_time,
                )
                &&& ALIEN_COOLDOWN_MIN <= cooldown < ALIEN_COOLDOWN_MAX
                &&& final(game_state)@ == #[trigger] alien_shot(
                    old(game_state)@,
                    delta_time,
                    shooter,
                    cooldown,
                )
            },
        old(game_state)@.wf() ==> final(game_state)@.wf(),
{
    let left = if game_state.alien_shoot_cooldown > 0 {
        minus(game_state.alien_shoot_cooldown, delta_time)
    } else {
        game_state.alien_shoot_cooldown
    };
    let living_count = game_state.alien_formation.count_living();
    if left <= 0 && living_count > 0 {
        let shooter = draw_shooter(living_count);
        let cooldown = draw_alien_cooldown();
        alien_shooting_with(game_state, delta_time, shooter, cooldown);
    } else {
        alien_shooting_with(game_state, delta_time, 0, ALIEN_COOLDOWN_MIN);
    }
}

// -------------------------------------------------------------- projectiles

/// The first `n` projectiles of `ps` after `dt` microseconds of flight,
/// without those that have left a screen of the given height.
pub open spec fn flown(ps: Seq<Projectile>, dt: i64, screen_height: i64, n: int) -> Seq<Projectile>
    decreases n,
{
    if n <= 0 {
        Seq::empty()
    } else if ps[n - 1].moved(dt).off_screen(screen_height) {
        flown(ps, dt, screen_height, n - 1)
    } else {
        flown(ps, dt, screen_height, n - 1).push(ps[n - 1].moved(dt))
    }
}

/// The state after the projectiles' part of a tick of `dt` microseconds:
/// each has moved, and those that have left the screen are gone.
pub open spec fn projectiles_updated(s: GameView, dt: i64) -> GameView {
    GameView {
        player_projectiles: flown(s.player_projectiles, dt, 0, s.player_projectiles.len() as int),
        alien_projectiles: flown(s.alien_projectiles, dt, GAME_HEIGHT, s.alien_projectiles.len() as int),
        ..s
    }
}

/// The projectiles of `ps` after `dt` microseconds of flight, without those
/// that have left the screen.
pub fn fly(ps: &Vec<Projectile>, dt: i64, screen_height: i64) -> (rest: Vec<Projectile>)
    ensures
        rest@ == flown(ps@, dt, screen_height, ps.len() as int),
{
    let mut rest: Vec<Projectile> = Vec::new();
    let mut i: usize = 0;
    while i < ps.len()
        invariant
            i <= ps.len(),
            rest@ == flown(ps@, dt, screen_height, i as int),
        decreases ps.len() - i,
    {
        let mut projectile = ps[i];
        projectile.update(dt);
        if !projectile.is_off_screen(screen_height) {
            rest.push(projectile);
        }
        i += 1;
    }
    rest
}

/// Moves every projectile and removes those that have left the screen.
pub fn update_projectiles(game_state: &mut GameState, delta_time: i64)
    ensures
        final(game_state)@ == projectiles_updated(old(game_state)@, delta_time),
        old(game_state)@.wf() ==> final(game_state)@.wf(),
{
    let players = fly(&game_state.player_projectiles, delta_time, 0);
    let aliens = fly(&game_state.alien_projectiles, delta_time, GAME_HEIGHT);
    game_state.player_projectiles = players;
    game_state.alien_projectiles = aliens;
}

// -------------------------------------------------------------------- level

/// How far the formation of the given level moves sideways in one step: a
/// tenth of `FORMATION_SPEED` more with every level.
pub open spec fn level_speed(level: i32) -> i64 {
    (FORMATION_SPEED * (10 + level) / 10) as i64
}

/// How long the formation of a level after the first waits between two
/// steps while it is full: nine tenths of `FORMATION_INTERVAL`.
pub open spec fn level_interval() -> i64 {
    (FORMATION_INTERVAL * 9 / 10) as i64
}

/// The state after the check for a cleared level. Where no alien lives, the
/// next level begins: with a fresh formation that is faster by
/// `level_speed` and steps in intervals of `level_interval`. Score, lives
/// and shields stay as they are.
pub open spec fn level_checked(s: GameView) -> GameView {
    if living(s.alien_formation.aliens) == 0 {
        let level = count_plus(s.level, 1i32);
        GameView {
            level,
            alien_formation: FormationView {
                speed: level_speed(level),
                move_interval: level_interval(),
                ..FormationView::fresh()
            },
            ..s
        }
    } else {
        s
    }
}

/// Begins the next level where the formation is cleared.
pub fn check_level_completion(game_state: &mut GameState)
    ensures
        final(game_state)@ == level_checked(old(game_state)@),
        old(game_state)@.wf() ==> final(game_state)@.wf(),
{
    if game_state.alien_formation.count_living() == 0 {
        game_state.level = count_plus(game_state.level, 1);
        let mut new_formation = AlienFormation::new(GAME_WIDTH);
        let tenths: i64 = 10 + game_state.level as i64;
        let tenth: i64 = FORMATION_SPEED / 10;
        proof {
            assert(tenth * tenths == 2_000_000 * tenths && FORMATION_SPEED * tenths / 10 == 2_000_000 * tenths)
                by (nonlinear_arith)
                requires
                    tenth == 2_000_000,
                    FORMATION_SPEED == 20_000_000,
            ;
        }
        new_formation.speed = tenth * tenths;
        new_formation.move_interval = FORMATION_INTERVAL / 10 * 9;
        game_state.alien_formation = new_formation;
    }
}

// ---------------------------------------------------------------- game over

/// The game is lost: no life is left, or the formation has come within
/// `PLAYER_CLEARANCE` of the player's `y`.
pub open spec fn lost(s: GameView) -> bool {
    s.lives <= 0 || lowest_y(s.alien_formation.aliens) >= s.player.position.y - PLAYER_CLEARANCE
}

/// The state after the check for a lost game: a lost game is over and shows
/// the screen that says so.
pub open spec fn game_over_checked(s: GameView) -> GameView {
    if lost(s) {
        GameView { game_over: true, screen: GameScreen::GameOver, ..s }
    } else {
        s
    }
}

/// Ends the game where it is lost.
pub fn check_game_over_conditions(game_state: &mut GameState)
    ensures
        final(game_state)@ == game_over_checked(old(game_state)@),
        old(game_state).lives <= 0 ==> final(game_state).game_over && final(game_state).screen
            == GameScreen::GameOver,
        old(game_state)@.wf() ==> final(game_state)@.wf(),
{
    if game_state.lives <= 0 {
        game_state.game_over = true;
        game_state.screen = GameScreen::GameOver;
    }
    let player_y = game_state.player.position.y;
    let lowest_alien_y = game_state.alien_formation.get_lowest_y();
    if lowest_alien_y as i128 >= player_y as i128 - PLAYER_CLEARANCE as i128 {
        game_state.game_over = true;
        game_state.screen = GameScreen::GameOver;
    }
}

// --------------------------------------------------------------- bonus ship

/// The bonus ship as it enters, from the left or from the right, worth
/// `points`.
pub open spec fn entering(from_left: bool, points: i32) -> MysteryShip {
    MysteryShip {
        position: Position {
            x: if from_left {
                MYSTERY_LEFT_START
            } else {
                MYSTERY_RIGHT_START
            },
            y: MysteryShip::parked().position.y,
        },
        direction: if from_left {
            1i64
        } else {
            -1i64
        },
        active: true,
        points,
        ..MysteryShip::parked()
    }
}

/// Whether chance decides on the bonus ship in this tick: no ship is on the
/// screen and the wait for the decision is over.
pub open spec fn mystery_draw_due(s: GameView) -> bool {
    s.mystery_ship is None && minus(s.mystery_ship_timer, s.dt) <= 0
}

/// The state after the bonus ship's part of a tick, whose length is `s.dt`.
/// A ship on the screen flies on, and is taken off once it is no longer
/// active. With no ship on the screen the wait runs down; once it is over,
/// `draw` says how long the next wait is and whether a ship enters, from
/// which side, and what it is worth.
pub open spec fn mystery_updated(s: GameView, draw: MysteryDraw) -> GameView {
    match s.mystery_ship {
        Some(ship) => {
            let ship = ship.flown(s.dt, GAME_WIDTH);
            GameView {
                mystery_ship: if ship.active {
                    Some(ship)
                } else {
                    None
                },
                ..s
            }
        },
        None => {
            if mystery_draw_due(s) {
                GameView {
                    mystery_ship_timer: draw.delay,
                    mystery_ship: if draw.appears {
                        Some(entering(draw.from_left, draw.points))
                    } else {
                        None
                    },
                    ..s
                }
            } else {
                GameView { mystery_ship_timer: minus(s.mystery_ship_timer, s.dt), ..s }
            }
        },
    }
}

/// Lets the bonus ship fly or wait, and where chance decides, takes the
/// decision from `draw`.
pub fn update_mystery_ship_with(game_state: &mut GameState, draw: &MysteryDraw)
    ensures
        final(game_state)@ == mystery_updated(old(game_state)@, *draw),
        old(game_state)@.wf() ==> final(game_state)@.wf(),
{
    match game_state.mystery_ship {
        Some(ship) => {
            let mut ship = ship;
            ship.update(game_state.dt, GAME_WIDTH);
            game_state.mystery_ship = if ship.active {
                Some(ship)
            } else {
                None
            };
        },
        None => {
            game_state.mystery_ship_timer = minus(game_state.mystery_ship_timer, game_state.dt);
            if game_state.mystery_ship_timer <= 0 {
                game_state.mystery_ship_timer = draw.delay;
                if draw.appears {
                    let mut ship = MysteryShip::new();
                    if draw.from_left {
                        ship.direction = 1;
                        ship.position.x = MYSTERY_LEFT_START;
                    } else {
                        ship.direction = -1;
                        ship.position.x = MYSTERY_RIGHT_START;
                    }
                    ship.active = true;
                    ship.points = draw.points;
                    game_state.mystery_ship = Some(ship);
                }
            }
        },
    }
}

/// Lets the bonus ship fly or wait, and draws what chance decides.
pub fn update_mystery_ship(game_state: &mut GameState)
    ensures
        exists|draw: MysteryDraw|
            draw.in_range() && final(game_state)@ == #[trigger] mystery_updated(old(game_state)@, draw),
        old(game_state)@.wf() ==> final(game_state)@.wf(),
{
    let due = game_state.mystery_ship.is_none() && minus(game_state.mystery_ship_timer, game_state.dt) <= 0;
    let draw = if due {
        draw_mystery()
    } else {
        MysteryDraw { delay: MYSTERY_DELAY_MIN, appears: false, from_left: false, points: 0 }
    };
    update_mystery_ship_with(game_state, &draw);
}

// --------------------------------------------------------------- collisions

/// Resolves the collisions of a tick, in this order: the player's
/// projectiles with the bonus ship; all projectiles with the shields; the
/// player's projectiles with the aliens; the aliens' projectiles with the
/// player.
pub fn check_projectile_collisions(game_state: &mut GameState)
    ensures
        final(game_state)@ == collisions_resolved(old(game_state)@),
        score_kept(old(game_state)@, final(game_state)@),
        old(game_state)@.wf() ==> final(game_state)@.wf(),
{
    proof {
        law_collisions_keep_score(game_state@);
    }
    check_mystery_ship_collisions(game_state);
    check_shield_projectile_collisions(game_state);
    check_alien_collisions(game_state);
    check_player_collisions(game_state);
}

} // verus!
