//! What holds of every game, whatever the player and chance do.

use crate::game::chance::Draws;
use crate::game::collision::{
    aliens_resolved, collisions_resolved, destroyed_through, law_sweep_only_clears, lemma_sweep_keeps_shape,
    mystery_resolved, player_resolved, shields_resolved, target_of,
};
use crate::game::entities::alien::{
    interval_for, law_interval_falls_with_living, lemma_interval_bounds, lemma_living_among, living,
    living_among, Alien, FormationView, FORMATION_COLS,
    FORMATION_ROWS,
};
use crate::game::entities::projectile::Projectile;
use crate::game::logic::{
    alien_destroyed, alien_shot, aliens_updated, can_destroy, game_over_checked, level_checked,
    mystery_updated, player_shot, player_updated, projectiles_updated, scored,
};
use crate::game::session::{key_pressed, key_released, moved, settled, stepped};
use crate::game::state::{GameScreen, GameView};
use crate::input::key_states::Key;
use crate::utils::units::count_plus;
use vstd::prelude::*;

verus! {

/// The score of `after` is no less than that of `before`, and the high
/// score is either untouched along with the score, or the greater of the
/// high score of `before` and the score of `after`.
pub open spec fn score_kept(before: GameView, after: GameView) -> bool {
    &&& after.score >= before.score
    &&& {
        ||| after.score == before.score && after.high_score == before.high_score
        ||| after.high_score == if after.score > before.high_score {
            after.score
        } else {
            before.high_score
        }
    }
}

/// `score_kept` of one state, and from a first state to a third by way of a
/// second.
pub proof fn lemma_score_kept_chain(a: GameView, b: GameView, c: GameView)
    requires
        score_kept(a, b),
        score_kept(b, c),
    ensures
        score_kept(a, a),
        score_kept(a, c),
{
}

/// Points that are not negative keep the score.
pub proof fn lemma_scored_keeps_score(s: GameView, points: i32)
    requires
        points >= 0,
    ensures
        score_kept(s, scored(s, points)),
{
}

/// The destruction of an alien keeps the score, and touches nothing but the
/// score, the high score and the formation.
pub proof fn lemma_destruction_keeps_score(s: GameView, index: int)
    ensures
        score_kept(s, alien_destroyed(s, index)),
        alien_destroyed(s, index) == (GameView {
            score: alien_destroyed(s, index).score,
            high_score: alien_destroyed(s, index).high_score,
            alien_formation: alien_destroyed(s, index).alien_formation,
            ..s
        }),
{
}

/// The destruction of the targets of any number of projectiles keeps the
/// score, and touches nothing but the score, the high score and the
/// formation.
pub proof fn lemma_destructions_keep_score(s: GameView, ps: Seq<Projectile>, aliens: Seq<Alien>, n: int)
    ensures
        score_kept(s, destroyed_through(s, ps, aliens, n)),
        destroyed_through(s, ps, aliens, n) == (GameView {
            score: destroyed_through(s, ps, aliens, n).score,
            high_score: destroyed_through(s, ps, aliens, n).high_score,
            alien_formation: destroyed_through(s, ps, aliens, n).alien_formation,
            ..s
        }),
    decreases n,
{
    if n > 0 {
        lemma_destructions_keep_score(s, ps, aliens, n - 1);
        let before = destroyed_through(s, ps, aliens, n - 1);
        match target_of(aliens, ps[n - 1]) {
            Some(t) => {
                lemma_destruction_keeps_score(before, t);
                lemma_score_kept_chain(s, before, alien_destroyed(before, t));
            },
            None => {},
        }
    }
}

/// The resolution of a tick's collisions keeps the score.
pub proof fn law_collisions_keep_score(s: GameView)
    ensures
        score_kept(s, collisions_resolved(s)),
{
    let a = mystery_resolved(s);
    let b = shields_resolved(a);
    let c = aliens_resolved(b);
    let d = player_resolved(c);
    assert(score_kept(s, a)) by {
        if s.mystery_ship is Some && s.mystery_ship->0.points > 0 {
            lemma_scored_keeps_score(s, s.mystery_ship->0.points);
        }
    }
    assert(score_kept(b, c)) by {
        lemma_destructions_keep_score(
            b,
            b.player_projectiles,
            b.alien_formation.aliens,
            b.player_projectiles.len() as int,
        );
    }
    lemma_score_kept_chain(s, a, b);
    lemma_score_kept_chain(s, b, c);
    lemma_score_kept_chain(s, c, d);
}

/// A tick never lowers the score, and a tick that changes the score leaves
/// the high score at the greater of what it was and the new score.
pub proof fn law_tick_keeps_score(s: GameView, dt: i64, draws: Draws)
    ensures
        score_kept(s, stepped(s, dt, draws)),
        stepped(s, dt, draws).score >= s.score,
        stepped(s, dt, draws).score != s.score ==> stepped(s, dt, draws).high_score == if stepped(
            s,
            dt,
            draws,
        ).score > s.high_score {
            stepped(s, dt, draws).score
        } else {
            s.high_score
        },
{
    if s.screen == GameScreen::Playing && !s.game_over {
        reveal(moved);
        reveal(settled);
        let s0 = GameView { dt, ..s };
        let s1 = player_updated(s0, dt);
        let s2 = player_shot(s1, dt);
        let s3 = aliens_updated(s2, dt);
        let s4 = alien_shot(s3, dt, draws.shooter, draws.alien_cooldown);
        let s5 = mystery_updated(s4, draws.mystery);
        let s6 = projectiles_updated(s5, dt);
        let s7 = collisions_resolved(s6);
        let s8 = level_checked(s7);
        let s9 = game_over_checked(s8);
        law_collisions_keep_score(s6);
    }
}

/// One tick: how long it is and what chance decides in it.
pub struct Tick {
    pub dt: i64,
    pub draws: Draws,
}

/// The state after the given ticks, one after the other.
pub open spec fn ran(s: GameView, ticks: Seq<Tick>) -> GameView
    decreases ticks.len(),
{
    if ticks.len() == 0 {
        s
    } else {
        stepped(ran(s, ticks.drop_last()), ticks.last().dt, ticks.last().draws)
    }
}

/// No sequence of ticks lowers the score, and one that changes the score
/// leaves the high score at the greater of what it was and the new score.
pub proof fn law_ticks_keep_score(s: GameView, ticks: Seq<Tick>)
    ensures
        score_kept(s, ran(s, ticks)),
    decreases ticks.len(),
{
    if ticks.len() > 0 {
        law_ticks_keep_score(s, ticks.drop_last());
        let before = ran(s, ticks.drop_last());
        law_tick_keeps_score(before, ticks.last().dt, ticks.last().draws);
        lemma_score_kept_chain(s, before, ran(s, ticks));
    }
}

/// A tick keeps a state well formed: a bonus ship on the screen is active,
/// and every shield's bitmap is a rectangle. It adds and removes no shield
/// and leaves each shield's place, size and letter alone.
pub proof fn law_tick_keeps_wf(s: GameView, dt: i64, draws: Draws)
    ensures
        stepped(s, dt, draws).shields.len() == s.shields.len(),
        forall|k: int|
            #![trigger stepped(s, dt, draws).shields[k]]
            0 <= k < s.shields.len() ==> {
                &&& stepped(s, dt, draws).shields[k].position == s.shields[k].position
                &&& stepped(s, dt, draws).shields[k].width == s.shields[k].width
                &&& stepped(s, dt, draws).shields[k].height == s.shields[k].height
                &&& stepped(s, dt, draws).shields[k].shield_type == s.shields[k].shield_type
                &&& stepped(s, dt, draws).shields[k].rows() == s.shields[k].rows()
                &&& stepped(s, dt, draws).shields[k].cols() == s.shields[k].cols()
            },
        s.wf() ==> stepped(s, dt, draws).wf(),
{
    if s.screen == GameScreen::Playing && !s.game_over {
        reveal(moved);
        reveal(settled);
        let s0 = GameView { dt, ..s };
        let s1 = player_updated(s0, dt);
        let s2 = player_shot(s1, dt);
        let s3 = aliens_updated(s2, dt);
        let s4 = alien_shot(s3, dt, draws.shooter, draws.alien_cooldown);
        let s5 = mystery_updated(s4, draws.mystery);
        let s6 = projectiles_updated(s5, dt);
        let a = mystery_resolved(s6);
        let b = shields_resolved(a);
        let c = aliens_resolved(b);
        let d = player_resolved(c);
        let s8 = level_checked(d);
        let s9 = game_over_checked(s8);
        let ps = a.player_projectiles + a.alien_projectiles;
        assert forall|k: int| 0 <= k < s.shields.len() implies {
            &&& (#[trigger] b.shields[k]).position == s.shields[k].position
            &&& b.shields[k].width == s.shields[k].width
            &&& b.shields[k].height == s.shields[k].height
            &&& b.shields[k].shield_type == s.shields[k].shield_type
            &&& b.shields[k].rows() == s.shields[k].rows()
            &&& b.shields[k].cols() == s.shields[k].cols()
            &&& (s.shields[k].wf() ==> b.shields[k].wf())
        } by {
            lemma_sweep_keeps_shape(s.shields[k], ps, ps.len() as int);
        }
        lemma_destructions_keep_score(
            b,
            b.player_projectiles,
            b.alien_formation.aliens,
            b.player_projectiles.len() as int,
        );
    }
}

/// A tick only ever clears segments: whatever stands of a shield after a
/// tick stood before it.
pub proof fn law_tick_only_clears_segments(s: GameView, dt: i64, draws: Draws, k: int, r: int, c: int)
    requires
        0 <= k < s.shields.len(),
        stepped(s, dt, draws).shields[k].stands(r, c),
    ensures
        s.shields[k].stands(r, c),
{
    if s.screen == GameScreen::Playing && !s.game_over {
        reveal(moved);
        reveal(settled);
        let s0 = GameView { dt, ..s };
        let s1 = player_updated(s0, dt);
        let s2 = player_shot(s1, dt);
        let s3 = aliens_updated(s2, dt);
        let s4 = alien_shot(s3, dt, draws.shooter, draws.alien_cooldown);
        let s5 = mystery_updated(s4, draws.mystery);
        let s6 = projectiles_updated(s5, dt);
        let a = mystery_resolved(s6);
        let b = shields_resolved(a);
        let c2 = aliens_resolved(b);
        let d = player_resolved(c2);
        let s8 = level_checked(d);
        let s9 = game_over_checked(s8);
        lemma_destructions_keep_score(
            b,
            b.player_projectiles,
            b.alien_formation.aliens,
            b.player_projectiles.len() as int,
        );
        let ps = a.player_projectiles + a.alien_projectiles;
        law_sweep_only_clears(s.shields[k], ps, ps.len() as int, r, c);
    }
}

/// No sequence of ticks takes a state out of being well formed.
pub proof fn law_ticks_keep_wf(s: GameView, ticks: Seq<Tick>)
    requires
        s.wf(),
    ensures
        ran(s, ticks).wf(),
    decreases ticks.len(),
{
    if ticks.len() > 0 {
        law_ticks_keep_wf(s, ticks.drop_last());
        law_tick_keeps_wf(ran(s, ticks.drop_last()), ticks.last().dt, ticks.last().draws);
    }
}

/// Keys keep a state well formed, and a session begins well formed.
pub proof fn law_keys_keep_wf(s: GameView, key: Key)
    requires
        s.wf(),
    ensures
        key_pressed(s, key).wf(),
        key_released(s, key).wf(),
        GameView::session(s.high_score).wf(),
{
}

/// A session begins on the playing screen with its high score handed down,
/// no score, three lives, level 1, and a formation of which all live.
pub proof fn law_session_begins(high_score: i32)
    ensures
        GameView::session(high_score).screen == GameScreen::Playing,
        GameView::session(high_score).high_score == high_score,
        GameView::session(high_score).score == 0,
        GameView::session(high_score).lives == 3,
        GameView::session(high_score).level == 1,
        !GameView::session(high_score).game_over,
        GameView::session(high_score).shields.len() == 6,
        living(GameView::session(high_score).alien_formation.aliens) == FORMATION_ROWS * FORMATION_COLS,
{
    lemma_all_living(FormationView::fresh().aliens, (FORMATION_ROWS * FORMATION_COLS) as int);
}

/// Where each of the first `n` aliens lives, `n` of them live.
pub proof fn lemma_all_living(aliens: Seq<Alien>, n: int)
    requires
        0 <= n <= aliens.len(),
        forall|i: int| 0 <= i < n ==> (#[trigger] aliens[i]).is_alive,
    ensures
        living_among(aliens, n) == n,
    decreases n,
{
    if n > 0 {
        lemma_all_living(aliens, n - 1);
    }
}

/// Once the formation is cleared, the check for a cleared level begins the
/// next one: the level is one higher, the formation is whole and all of it
/// lives, and score, high score, lives and shields are untouched.
pub proof fn law_cleared_level_begins_next(s: GameView)
    requires
        living(s.alien_formation.aliens) == 0,
    ensures
        level_checked(s).level == count_plus(s.level, 1i32),
        s.level < i32::MAX ==> level_checked(s).level == s.level + 1,
        level_checked(s).alien_formation.aliens.len() == FORMATION_ROWS * FORMATION_COLS,
        forall|i: int|
            0 <= i < level_checked(s).alien_formation.aliens.len() ==> (#[trigger] level_checked(
                s,
            ).alien_formation.aliens[i]).is_alive,
        living(level_checked(s).alien_formation.aliens) == FORMATION_ROWS * FORMATION_COLS,
        level_checked(s).high_score == s.high_score,
        level_checked(s).score == s.score,
        level_checked(s).lives == s.lives,
        level_checked(s).shields == s.shields,
{
    lemma_all_living(FormationView::fresh().aliens, (FORMATION_ROWS * FORMATION_COLS) as int);
}

/// While an alien lives, the check for a cleared level changes nothing.
pub proof fn law_level_lasts_while_aliens_live(s: GameView)
    requires
        living(s.alien_formation.aliens) > 0,
    ensures
        level_checked(s) == s,
{
}

/// With no life left, the check for a lost game ends the game and shows the
/// screen that says so.
pub proof fn law_no_life_ends_game(s: GameView)
    requires
        s.lives <= 0,
    ensures
        game_over_checked(s).game_over,
        game_over_checked(s).screen == GameScreen::GameOver,
{
}

/// A tick that leaves the game over leaves it on the screen that says so.
pub proof fn law_game_over_shows(s: GameView, dt: i64, draws: Draws)
    requires
        s.screen == GameScreen::Playing,
        !s.game_over,
    ensures
        stepped(s, dt, draws).game_over ==> stepped(s, dt, draws).screen == GameScreen::GameOver,
{
}

/// Killing a living alien leaves one fewer alive.
pub proof fn lemma_kill_counts(aliens: Seq<Alien>, index: int, n: int)
    requires
        0 <= index < aliens.len(),
        aliens[index].is_alive,
        0 <= n <= aliens.len(),
    ensures
        living_among(aliens.update(index, Alien { is_alive: false, ..aliens[index] }), n) == living_among(
            aliens,
            n,
        ) - if index < n {
            1int
        } else {
            0int
        },
    decreases n,
{
    if n > 0 {
        lemma_kill_counts(aliens, index, n - 1);
    }
}

/// Each kill shortens the formation's wait or leaves it as it is: of two
/// kills in a row, the second leaves a wait no longer than the first did.
/// While an alien is left after a kill, the wait is `interval_for` the
/// living.
pub proof fn law_kills_shorten_interval(s: GameView, first: int, second: int)
    requires
        can_destroy(s, first),
        can_destroy(alien_destroyed(s, first), second),
    ensures
        alien_destroyed(alien_destroyed(s, first), second).alien_formation.move_interval <= alien_destroyed(
            s,
            first,
        ).alien_formation.move_interval,
        living(alien_destroyed(s, first).alien_formation.aliens) == living(s.alien_formation.aliens) - 1,
        alien_destroyed(s, first).alien_formation.move_interval == interval_for(
            (living(s.alien_formation.aliens) - 1) as nat,
            s.alien_formation.aliens.len(),
        ),
{
    let a0 = s.alien_formation.aliens;
    let s1 = alien_destroyed(s, first);
    let a1 = s1.alien_formation.aliens;
    let s2 = alien_destroyed(s1, second);
    let a2 = s2.alien_formation.aliens;
    lemma_kill_counts(a0, first, a0.len() as int);
    lemma_kill_counts(a1, second, a1.len() as int);
    lemma_living_among(a1, a1.len() as int);
    lemma_living_among(a2, a2.len() as int);
    lemma_interval_bounds(living(a1), a0.len());
    lemma_interval_bounds(living(a2), a0.len());
    law_interval_falls_with_living(living(a2), living(a1), a0.len());
}

} // verus!
