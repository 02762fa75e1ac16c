use space_invaders::game::entities::alien::AlienFormation;
use space_invaders::game::entities::shield::{Shield, ShieldType};
use space_invaders::game::state::{GameScreen, GameState};
use space_invaders::input::key_states::Key;
use space_invaders::utils::units::{PIXEL, SECOND};

fn px(v: f64) -> i64 {
    (v * PIXEL as f64).round() as i64
}

fn secs(v: f64) -> i64 {
    (v * SECOND as f64).round() as i64
}

fn six_shields() -> Vec<Shield> {
    vec![
        Shield::new(px(100.0), px(500.0), ShieldType::UppercaseC),
        Shield::new(px(250.0), px(500.0), ShieldType::UppercaseO),
        Shield::new(px(400.0), px(500.0), ShieldType::UppercaseR),
        Shield::new(px(550.0), px(500.0), ShieldType::UppercaseT),
        Shield::new(px(700.0), px(500.0), ShieldType::UppercaseW),
        Shield::new(px(850.0), px(500.0), ShieldType::UppercaseO),
    ]
}

// A new GameState is created with default values
#[test]
fn test_game_state_default() {
    let state = GameState::default();
    assert_eq!(state.score, 0);
    assert_eq!(state.high_score, 0);
    assert!(!state.game_over);
    assert_eq!(state.level, 0);
    assert_eq!(state.lives, 0);
    assert_eq!(state.player_projectiles.len(), 0);
    assert_eq!(state.alien_projectiles.len(), 0);
    assert_eq!(state.player_shoot_cooldown, 0);
    assert_eq!(state.alien_shoot_cooldown, 0);
    assert_eq!(state.shields.len(), 0);
    assert_eq!(state.invincibility_timer, 0);
    assert!(state.mystery_ship.is_none());
    assert_eq!(state.screen, GameScreen::StartScreen);
}

// GameScreen default is StartScreen
#[test]
fn test_game_screen_default() {
    let screen = GameScreen::default();
    assert_eq!(screen, GameScreen::StartScreen);
}

// GameScreen equality
#[test]
fn test_game_screen_equality() {
    assert_eq!(GameScreen::StartScreen, GameScreen::StartScreen);
    assert_ne!(GameScreen::StartScreen, GameScreen::Playing);
    assert_ne!(GameScreen::StartScreen, GameScreen::GameOver);
    assert_ne!(GameScreen::Playing, GameScreen::GameOver);
}

// GameState can be initialized and modified
#[test]
fn test_game_state_initialization() {
    let mut state = GameState::default();

    state.score = 100;
    state.high_score = 500;
    state.lives = 3;
    state.level = 1;
    state.screen = GameScreen::Playing;

    state.shields.push(Shield::new(px(100.0), px(600.0), ShieldType::UppercaseC));
    state.shields.push(Shield::new(px(300.0), px(600.0), ShieldType::UppercaseO));

    assert_eq!(state.score, 100);
    assert_eq!(state.high_score, 500);
    assert_eq!(state.lives, 3);
    assert_eq!(state.level, 1);
    assert_eq!(state.screen, GameScreen::Playing);
    assert_eq!(state.shields.len(), 2);
}

// GameState tracks the high score
#[test]
fn test_high_score_tracking() {
    let mut state = GameState::default();
    state.high_score = 1000;

    state.score = 500;
    assert_eq!(state.high_score, 1000);

    state.score = 1500;
    if state.score > state.high_score {
        state.high_score = state.score;
    }
    assert_eq!(state.high_score, 1500);
}

// The state that a session is set up with
#[test]
fn test_game_initialization() {
    let game_state = GameState {
        lives: 3,
        level: 1,
        mystery_ship_timer: secs(15.0),
        screen: GameScreen::StartScreen,
        alien_formation: AlienFormation::new(px(1024.0)),
        last_update: secs(instant::Instant::now().elapsed().as_secs_f64()),
        shields: six_shields(),
        ..Default::default()
    };

    let state = game_state;

    assert_eq!(state.lives, 3);
    assert_eq!(state.level, 1);
    assert_eq!(state.shields.len(), 6);
    assert!(!state.game_over);
}

// The state that the game begins with
#[test]
fn test_game_initial_state() {
    let game_state = GameState {
        lives: 3,
        level: 1,
        mystery_ship_timer: secs(15.0),
        screen: GameScreen::StartScreen,
        alien_formation: AlienFormation::new(px(1024.0)),
        shields: six_shields(),
        ..Default::default()
    };

    assert_eq!(game_state.screen, GameScreen::StartScreen);
    assert_eq!(game_state.lives, 3);
    assert_eq!(game_state.level, 1);
    assert_eq!(game_state.shields.len(), 6);
}

// The screens follow one another
#[test]
fn test_key_handling() {
    let mut game_state = GameState { screen: GameScreen::StartScreen, ..Default::default() };

    if game_state.screen == GameScreen::StartScreen {
        game_state.screen = GameScreen::Playing;
    }

    assert_eq!(game_state.screen, GameScreen::Playing);

    game_state.screen = GameScreen::GameOver;

    if game_state.screen == GameScreen::GameOver {
        game_state.screen = GameScreen::Playing;
    }

    assert_eq!(game_state.screen, GameScreen::Playing);
}

// The game handles key state updates
#[test]
fn test_key_state_updates() {
    let mut game_state = GameState { screen: GameScreen::Playing, ..Default::default() };

    game_state.key_states.update_from_key(Key::ArrowLeft, true);
    assert!(game_state.key_states.left);

    game_state.key_states.update_from_key(Key::Shift, true);
    assert!(game_state.key_states.shift);

    game_state.key_states.update_from_key(Key::ArrowLeft, false);
    assert!(!game_state.key_states.left);
}

// A game that is over shows the screen that says so
#[test]
fn test_game_over_screen_transition() {
    let mut game_state = GameState { screen: GameScreen::Playing, lives: 1, ..Default::default() };

    game_state.lives = 0;
    game_state.game_over = true;

    if game_state.game_over {
        game_state.screen = GameScreen::GameOver;
    }

    assert_eq!(game_state.screen, GameScreen::GameOver);
}

// Game state transitions
#[test]
fn test_game_state_transitions() {
    let mut game_state = GameState::default();
    game_state.screen = GameScreen::StartScreen;

    game_state.screen = GameScreen::Playing;
    assert_eq!(game_state.screen, GameScreen::Playing);

    game_state.game_over = true;
    game_state.screen = GameScreen::GameOver;
    assert_eq!(game_state.screen, GameScreen::GameOver);
}

// Game reset keeps the high score
#[test]
fn test_game_reset() {
    let mut game_state = GameState {
        high_score: 1000,
        score: 500,
        lives: 0,
        game_over: true,
        screen: GameScreen::GameOver,
        ..Default::default()
    };
    assert_eq!(game_state.score, 500);

    game_state = GameState {
        high_score: game_state.high_score,
        lives: 3,
        level: 1,
        screen: GameScreen::Playing,
        alien_formation: AlienFormation::new(px(1024.0)),
        shields: six_shields(),
        ..Default::default()
    };

    assert_eq!(game_state.screen, GameScreen::Playing);
    assert_eq!(game_state.lives, 3);
    assert_eq!(game_state.score, 0);
    assert_eq!(game_state.high_score, 1000);
    assert!(!game_state.game_over);
}

// Screens integrate with game state transitions
#[test]
fn test_screens_with_game_state_transitions() {
    let mut game_state = GameState::default();

    game_state.screen = GameScreen::StartScreen;
    assert_eq!(game_state.screen, GameScreen::StartScreen);

    game_state.screen = GameScreen::Playing;
    assert_eq!(game_state.screen, GameScreen::Playing);

    game_state.screen = GameScreen::GameOver;
    assert_eq!(game_state.screen, GameScreen::GameOver);

    let score = game_state.score;
    let high_score = game_state.high_score;

    assert_eq!(game_state.score, score);
    assert_eq!(game_state.high_score, high_score);
}

// A session made by the library is the one that the reset builds by hand
#[test]
fn test_new_session() {
    let by_hand = GameState {
        high_score: 1000,
        lives: 3,
        level: 1,
        screen: GameScreen::Playing,
        alien_formation: AlienFormation::new(px(1024.0)),
        shields: six_shields(),
        mystery_ship_timer: secs(15.0),
        ..Default::default()
    };
    assert_eq!(GameState::new_session(1000), by_hand);
}
