//! The whole state of a game.

use crate::game::entities::alien::{AlienFormation, FormationView};
use crate::game::entities::mystery_ship::MysteryShip;
use crate::game::entities::player::Player;
use crate::game::entities::projectile::Projectile;
use crate::game::entities::shield::{glyph, Shield, ShieldType, ShieldView, SHIELD_HEIGHT, SHIELD_WIDTH};
use crate::input::key_states::KeyStates;
use crate::utils::position::Position;
use crate::utils::units::{PIXEL, SECOND};
use vstd::prelude::*;

verus! {

/// Lives at the start of a session.
pub const START_LIVES: i32 = 3;

/// Level at the start of a session.
pub const START_LEVEL: i32 = 1;

/// How long a session runs before the bonus ship may first appear.
pub const FIRST_MYSTERY_DELAY: i64 = 15 * SECOND;

/// Shields at the start of a session.
pub const SHIELD_COUNT: usize = 6;

/// The `x` of the leftmost shield.
pub const SHIELD_LEFT: i64 = 100 * PIXEL;

/// The distance from one shield's left edge to the next one's.
pub const SHIELD_SPACING: i64 = 150 * PIXEL;

/// The `y` of the shields' top edges.
pub const SHIELD_TOP: i64 = 500 * PIXEL;

/// The screen that is shown.
#[derive(Clone, Copy, PartialEq, Eq, Debug, Structural)]
pub enum GameScreen {
    StartScreen,
    Playing,
    GameOver,
}

impl Default for GameScreen {
    fn default() -> (screen: Self)
        ensures
            screen == GameScreen::StartScreen,
    {
        GameScreen::StartScreen
    }
}

/// Everything that a game consists of. The state owns each entity; nothing
/// else refers to one. Timers and `dt` are in microseconds.
#[derive(Clone, PartialEq, Eq, Debug)]
pub struct GameState {
    pub score: i32,
    pub high_score: i32,
    pub game_over: bool,
    pub level: i32,
    pub lives: i32,
    pub player: Player,
    pub key_states: KeyStates,
    pub player_projectiles: Vec<Projectile>,
    pub alien_projectiles: Vec<Projectile>,
    pub player_shoot_cooldown: i64,
    pub alien_shoot_cooldown: i64,
    pub alien_formation: AlienFormation,
    pub shields: Vec<Shield>,
    pub last_update: i64,
    /// Length of the current tick.
    pub dt: i64,
    /// While positive, the player cannot be hit.
    pub invincibility_timer: i64,
    /// The bonus ship, while it is on the screen.
    pub mystery_ship: Option<MysteryShip>,
    /// Time until the bonus ship may appear again.
    pub mystery_ship_timer: i64,
    pub screen: GameScreen,
}

/// A game as a mathematical value.
#[verifier::ext_equal]
pub struct GameView {
    pub score: i32,
    pub high_score: i32,
    pub game_over: bool,
    pub level: i32,
    pub lives: i32,
    pub player: Player,
    pub key_states: KeyStates,
    pub player_projectiles: Seq<Projectile>,
    pub alien_projectiles: Seq<Projectile>,
    pub player_shoot_cooldown: i64,
    pub alien_shoot_cooldown: i64,
    pub alien_formation: FormationView,
    pub shields: Seq<ShieldView>,
    pub last_update: i64,
    pub dt: i64,
    pub invincibility_timer: i64,
    pub mystery_ship: Option<MysteryShip>,
    pub mystery_ship_timer: i64,
    pub screen: GameScreen,
}

impl View for GameState {
    type V = GameView;

    open spec fn view(&self) -> GameView {
        GameView {
            score: self.score,
            high_score: self.high_score,
            game_over: self.game_over,
            level: self.level,
            lives: self.lives,
            player: self.player,
            key_states: self.key_states,
            player_projectiles: self.player_projectiles@,
            alien_projectiles: self.alien_projectiles@,
            player_shoot_cooldown: self.player_shoot_cooldown,
            alien_shoot_cooldown: self.alien_shoot_cooldown,
            alien_formation: self.alien_formation@,
            shields: shield_views(self.shields@),
            last_update: self.last_update,
            dt: self.dt,
            invincibility_timer: self.invincibility_timer,
            mystery_ship: self.mystery_ship,
            mystery_ship_timer: self.mystery_ship_timer,
            screen: self.screen,
        }
    }
}

/// The shields of a state as mathematical values.
pub open spec fn shield_views(shields: Seq<Shield>) -> Seq<ShieldView> {
    Seq::new(shields.len(), |k: int| shields[k]@)
}

/// The letter of the shield at index `k` of a session's row of shields.
pub open spec fn session_shield_type(k: int) -> ShieldType {
    if k == 0 {
        ShieldType::UppercaseC
    } else if k == 2 {
        ShieldType::UppercaseR
    } else if k == 3 {
        ShieldType::UppercaseT
    } else if k == 4 {
        ShieldType::UppercaseW
    } else {
        ShieldType::UppercaseO
    }
}

/// The shield at index `k` of a session's row of shields.
pub open spec fn session_shield(k: int) -> ShieldView {
    ShieldView {
        position: Position { x: (SHIELD_LEFT + k * SHIELD_SPACING) as i64, y: SHIELD_TOP },
        width: SHIELD_WIDTH,
        height: SHIELD_HEIGHT,
        shield_type: session_shield_type(k),
        segments: glyph(session_shield_type(k)),
    }
}

impl GameView {
    /// The state before anything has happened: the start screen, no score,
    /// no lives, nothing on the playfield but the player's ship.
    pub open spec fn idle() -> GameView {
        GameView {
            score: 0,
            high_score: 0,
            game_over: false,
            level: 0,
            lives: 0,
            player: Player::at_start(),
            key_states: KeyStates::released(),
            player_projectiles: Seq::empty(),
            alien_projectiles: Seq::empty(),
            player_shoot_cooldown: 0,
            alien_shoot_cooldown: 0,
            alien_formation: FormationView::empty(),
            shields: Seq::empty(),
            last_update: 0,
            dt: 0,
            invincibility_timer: 0,
            mystery_ship: None,
            mystery_ship_timer: 0,
            screen: GameScreen::StartScreen,
        }
    }

    /// The state at the start of a session: the playing screen, three lives,
    /// level 1, a fresh formation, six fresh shields, and the high score of
    /// the sessions before it. All else is as in `idle`.
    pub open spec fn session(high_score: i32) -> GameView {
        GameView {
            high_score,
            lives: START_LIVES,
            level: START_LEVEL,
            screen: GameScreen::Playing,
            alien_formation: FormationView::fresh(),
            shields: Seq::new(SHIELD_COUNT as nat, |k: int| session_shield(k)),
            mystery_ship_timer: FIRST_MYSTERY_DELAY,
            ..GameView::idle()
        }
    }

    /// The bonus ship, where there is one, is active, and every shield's
    /// bitmap is a rectangle.
    pub open spec fn wf(self) -> bool {
        &&& self.mystery_ship matches Some(ship) ==> ship.active
        &&& forall|k: int| 0 <= k < self.shields.len() ==> (#[trigger] self.shields[k]).wf()
    }
}

impl GameState {
    /// The state at the start of a session that follows sessions with the
    /// given high score.
    pub fn new_session(high_score: i32) -> (state: Self)
        ensures
            state@ == GameView::session(high_score),
            state@.wf(),
    {
        let mut shields: Vec<Shield> = Vec::new();
        let mut k: usize = 0;
        while k < SHIELD_COUNT
            invariant
                k <= SHIELD_COUNT,
                shields@.len() == k,
                forall|j: int| 0 <= j < k ==> (#[trigger] shields@[j])@ == session_shield(j),
            decreases SHIELD_COUNT - k,
        {
            let shield_type = if k == 0 {
                ShieldType::UppercaseC
            } else if k == 2 {
                ShieldType::UppercaseR
            } else if k == 3 {
                ShieldType::UppercaseT
            } else if k == 4 {
                ShieldType::UppercaseW
            } else {
                ShieldType::UppercaseO
            };
            shields.push(Shield::new(SHIELD_LEFT + (k as i64) * SHIELD_SPACING, SHIELD_TOP, shield_type));
            k += 1;
        }
        let state = Self {
            score: 0,
            high_score,
            game_over: false,
            level: START_LEVEL,
            lives: START_LIVES,
            player: Player::default(),
            key_states: KeyStates::new(),
            player_projectiles: Vec::new(),
            alien_projectiles: Vec::new(),
            player_shoot_cooldown: 0,
            alien_shoot_cooldown: 0,
            alien_formation: AlienFormation::new(crate::game::entities::alien::GAME_WIDTH),
            shields,
            last_update: 0,
            dt: 0,
            invincibility_timer: 0,
            mystery_ship: None,
            mystery_ship_timer: FIRST_MYSTERY_DELAY,
            screen: GameScreen::Playing,
        };
        state
    }
}

impl Default for GameState {
    fn default() -> (state: Self)
        ensures
            state@ == GameView::idle(),
            state@.wf(),
    {
        let state = Self {
            score: 0,
            high_score: 0,
            game_over: false,
            level: 0,
            lives: 0,
            player: Player::default(),
            key_states: KeyStates::new(),
            player_projectiles: Vec::new(),
            alien_projectiles: Vec::new(),
            player_shoot_cooldown: 0,
            alien_shoot_cooldown: 0,
            alien_formation: AlienFormation::default(),
            shields: Vec::new(),
            last_update: 0,
            dt: 0,
            invincibility_timer: 0,
            mystery_ship: None,
            mystery_ship_timer: 0,
            screen: GameScreen::StartScreen,
        };
        state
    }
}

} // verus!
