//! A session from the outside: ticks and keys in, screens out.

use crate::game::chance::{Draws, MysteryDraw, ALIEN_COOLDOWN_MAX, ALIEN_COOLDOWN_MIN, MYSTERY_DELAY_MIN};
use crate::game::collision::collisions_resolved;
use crate::game::laws::{law_tick_keeps_score, law_tick_keeps_wf, score_kept};
use crate::game::logic::{
    alien_shooting_with, alien_shot, aliens_updated, check_game_over_conditions, check_level_completion,
    check_projectile_collisions, game_over_checked, handle_alien_shooting, handle_player_shooting,
    level_checked, mystery_updated, player_shot, player_updated, projectiles_updated, update_aliens,
    update_mystery_ship, update_mystery_ship_with, update_player, update_projectiles,
};
use crate::game::state::{GameScreen, GameState, GameView};
use crate::input::key_states::Key;
use vstd::prelude::*;

verus! {

/// The state after the parts of a tick of `dt` microseconds in which
/// things move, in their order: the player moves and fires, the formation
/// moves and fires, the bonus ship flies, and the projectiles fly.
#[verifier::opaque]
pub open spec fn moved(s: GameView, dt: i64, draws: Draws) -> GameView {
    let s = player_updated(s, dt);
    let s = player_shot(s, dt);
    let s = aliens_updated(s, dt);
    let s = alien_shot(s, dt, draws.shooter, draws.alien_cooldown);
    let s = mystery_updated(s, draws.mystery);
    projectiles_updated(s, dt)
}

/// The state after the parts of a tick in which what has moved is settled,
/// in their order: collisions are resolved, and the level and the game are
/// checked for their end.
#[verifier::opaque]
pub open spec fn settled(s: GameView) -> GameView {
    let s = collisions_resolved(s);
    let s = level_checked(s);
    game_over_checked(s)
}

/// The state after the nine parts of a tick of `dt` microseconds.
pub open spec fn ticked(s: GameView, dt: i64, draws: Draws) -> GameView {
    settled(moved(s, dt, draws))
}

/// The state after one tick of `dt` microseconds. A game that is being
/// played and is not over goes through the parts of a tick, and shows the
/// screen for a game that is over once it is. Any other state stays as it
/// is.
pub open spec fn stepped(s: GameView, dt: i64, draws: Draws) -> GameView {
    if s.screen == GameScreen::Playing && !s.game_over {
        let t = ticked(GameView { dt, ..s }, dt, draws);
        if t.game_over {
            GameView { screen: GameScreen::GameOver, ..t }
        } else {
            t
        }
    } else {
        s
    }
}

/// The state after `key` has gone down. On the start screen the confirm
/// key, and on the screen for a game that is over the restart key, begin a
/// session that keeps the high score. While the game is played the key is
/// recorded as held.
pub open spec fn key_pressed(s: GameView, key: Key) -> GameView {
    match s.screen {
        GameScreen::StartScreen => if key == Key::Enter {
            GameView::session(s.high_score)
        } else {
            s
        },
        GameScreen::Playing => GameView { key_states: s.key_states.with_key(key, true), ..s },
        GameScreen::GameOver => if key == Key::Tab {
            GameView::session(s.high_score)
        } else {
            s
        },
    }
}

/// The state after `key` has gone up: while the game is played the key is
/// recorded as released.
pub open spec fn key_released(s: GameView, key: Key) -> GameView {
    if s.screen == GameScreen::Playing {
        GameView { key_states: s.key_states.with_key(key, false), ..s }
    } else {
        s
    }
}

/// Moves everything that moves in a tick of `delta_time` microseconds, with
/// what chance decides taken from `draws`.
pub fn move_all_with(game_state: &mut GameState, delta_time: i64, draws: &Draws)
    ensures
        final(game_state)@ == moved(old(game_state)@, delta_time, *draws),
{
    reveal(moved);
    update_player(game_state, delta_time);
    handle_player_shooting(game_state, delta_time);
    update_aliens(game_state, delta_time);
    alien_shooting_with(game_state, delta_time, draws.shooter, draws.alien_cooldown);
    update_mystery_ship_with(game_state, &draws.mystery);
    update_projectiles(game_state, delta_time);
}

/// Moves everything that moves in a tick of `delta_time` microseconds, and
/// draws what chance decides.
pub fn move_all(game_state: &mut GameState, delta_time: i64)
    ensures
        exists|draws: Draws|
            draws.in_range() && final(game_state)@ == #[trigger] moved(old(game_state)@, delta_time, draws),
{
    reveal(moved);
    update_player(game_state, delta_time);
    handle_player_shooting(game_state, delta_time);
    update_aliens(game_state, delta_time);
    let ghost before_shot = game_state@;
    handle_alien_shooting(game_state, delta_time);
    let ghost (shooter, alien_cooldown) = choose|shooter: usize, cooldown: i64|
        {
            &&& ALIEN_COOLDOWN_MIN <= cooldown < ALIEN_COOLDOWN_MAX
            &&& game_state@ == #[trigger] alien_shot(before_shot, delta_time, shooter, cooldown)
        };
    let ghost before_ship = game_state@;
    update_mystery_ship(game_state);
    let ghost mystery = choose|draw: MysteryDraw|
        draw.in_range() && game_state@ == #[trigger] mystery_updated(before_ship, draw);
    update_projectiles(game_state, delta_time);
    proof {
        let draws = Draws { shooter, alien_cooldown, mystery };
        assert(draws.in_range());
        assert(game_state@ == moved(old(game_state)@, delta_time, draws));
    }
}

/// Settles what has moved: resolves the collisions and checks the level and
/// the game for their end.
pub fn settle(game_state: &mut GameState)
    ensures
        final(game_state)@ == settled(old(game_state)@),
{
    reveal(settled);
    check_projectile_collisions(game_state);
    check_level_completion(game_state);
    check_game_over_conditions(game_state);
}

/// Lets one tick of `delta_time` microseconds pass, with what chance
/// decides taken from `draws`.
pub fn step_with(game_state: &mut GameState, delta_time: i64, draws: &Draws)
    ensures
        final(game_state)@ == stepped(old(game_state)@, delta_time, *draws),
        score_kept(old(game_state)@, final(game_state)@),
        old(game_state)@.wf() ==> final(game_state)@.wf(),
{
    proof {
        law_tick_keeps_score(game_state@, delta_time, *draws);
        law_tick_keeps_wf(game_state@, delta_time, *draws);
    }
    if game_state.screen == GameScreen::Playing && !game_state.game_over {
        game_state.dt = delta_time;
        move_all_with(game_state, delta_time, draws);
        settle(game_state);
        if game_state.game_over {
            game_state.screen = GameScreen::GameOver;
        }
    }
}

/// Lets one tick of `delta_time` microseconds pass, and draws what chance
/// decides.
pub fn step(game_state: &mut GameState, delta_time: i64)
    ensures
        exists|draws: Draws|
            draws.in_range() && final(game_state)@ == #[trigger] stepped(old(game_state)@, delta_time, draws),
        score_kept(old(game_state)@, final(game_state)@),
        old(game_state)@.wf() ==> final(game_state)@.wf(),
{
    if game_state.screen == GameScreen::Playing && !game_state.game_over {
        game_state.dt = delta_time;
        let ghost begun = game_state@;
        move_all(game_state, delta_time);
        let ghost draws = choose|draws: Draws|
            draws.in_range() && game_state@ == #[trigger] moved(begun, delta_time, draws);
        settle(game_state);
        if game_state.game_over {
            game_state.screen = GameScreen::GameOver;
        }
        proof {
            assert(game_state@ == stepped(old(game_state)@, delta_time, draws));
            law_tick_keeps_score(old(game_state)@, delta_time, draws);
            law_tick_keeps_wf(old(game_state)@, delta_time, draws);
        }
    } else {
        proof {
            let draws = Draws {
                shooter: 0,
                alien_cooldown: ALIEN_COOLDOWN_MIN,
                mystery: MysteryDraw {
                    delay: MYSTERY_DELAY_MIN,
                    appears: false,
                    from_left: false,
                    points: 0,
                },
            };
            assert(draws.in_range());
            assert(game_state@ == stepped(old(game_state)@, delta_time, draws));
        }
    }
}

/// Takes note that `key` has gone down.
pub fn handle_key_down(game_state: &mut GameState, key: Key)
    ensures
        final(game_state)@ == key_pressed(old(game_state)@, key),
        old(game_state)@.wf() ==> final(game_state)@.wf(),
{
    match game_state.screen {
        GameScreen::StartScreen => {
            if key == Key::Enter {
                *game_state = GameState::new_session(game_state.high_score);
            }
        },
        GameScreen::Playing => {
            game_state.key_states.update_from_key(key, true);
        },
        GameScreen::GameOver => {
            if key == Key::Tab {
                *game_state = GameState::new_session(game_state.high_score);
            }
        },
    }
}

/// Takes note that `key` has gone up.
pub fn handle_key_up(game_state: &mut GameState, key: Key)
    ensures
        final(game_state)@ == key_released(old(game_state)@, key),
        old(game_state)@.wf() ==> final(game_state)@.wf(),
{
    if game_state.screen == GameScreen::Playing {
        game_state.key_states.update_from_key(key, false);
    }
}

} // verus!
