use space_invaders::game::entities::alien::{Alien, AlienFormation, AlienType};
use space_invaders::game::entities::player::Player;
use space_invaders::game::entities::projectile::Projectile;
use space_invaders::game::logic::{
    check_game_over_conditions, check_level_completion, check_projectile_collisions, destroy_alien,
    handle_player_shooting, update_player,
};
use space_invaders::game::state::{GameScreen, GameState};
use space_invaders::utils::units::{PIXEL, SECOND};

fn px(v: f64) -> i64 {
    (v * PIXEL as f64).round() as i64
}

fn secs(v: f64) -> i64 {
    (v * SECOND as f64).round() as i64
}

// The player moves left when the left key is pressed
#[test]
fn test_player_moves_left() {
    let mut game_state = GameState::default();
    game_state.player = Player::default();
    game_state.key_states.left = true;

    let initial_x = game_state.player.position.x;
    update_player(&mut game_state, secs(0.1));

    assert!(game_state.player.position.x < initial_x);
}

// The player moves right when the right key is pressed
#[test]
fn test_player_moves_right() {
    let mut game_state = GameState::default();
    game_state.player = Player::default();
    game_state.key_states.right = true;

    let initial_x = game_state.player.position.x;
    update_player(&mut game_state, secs(0.1));

    assert!(game_state.player.position.x > initial_x);
}

// Player shooting creates a projectile
#[test]
fn test_player_shooting() {
    let mut game_state = GameState::default();
    game_state.player = Player::default();
    game_state.key_states.shift = true;
    game_state.player_shoot_cooldown = 0;

    handle_player_shooting(&mut game_state, secs(0.1));

    assert_eq!(game_state.player_projectiles.len(), 1);
    assert!(game_state.player_shoot_cooldown > 0);
}

// Alien destruction increases the score
#[test]
fn test_destroy_alien() {
    let mut game_state = GameState::default();
    game_state.alien_formation = AlienFormation::new(px(1024.0));
    let initial_score = game_state.score;

    destroy_alien(&mut game_state, 0);

    assert!(!game_state.alien_formation.aliens[0].is_alive);
    assert!(game_state.score > initial_score);
}

// Level completion creates a new alien formation
#[test]
fn test_level_completion() {
    let mut game_state = GameState::default();
    game_state.alien_formation = AlienFormation::new(px(1024.0));
    let initial_level = game_state.level;

    for alien in &mut game_state.alien_formation.aliens {
        alien.is_alive = false;
    }

    check_level_completion(&mut game_state);

    assert_eq!(game_state.level, initial_level + 1);
    assert!(game_state.alien_formation.count_living() > 0);
}

// Level completion increases difficulty
#[test]
fn test_level_completion_increases_difficulty() {
    let mut game_state = GameState::default();
    game_state.level = 1;

    for alien in &mut game_state.alien_formation.aliens {
        alien.is_alive = false;
    }

    check_level_completion(&mut game_state);

    assert_eq!(game_state.level, 2);

    assert!(game_state.alien_formation.aliens.iter().all(|a| a.is_alive));
}

// Player shooting creates projectiles at the correct position
#[test]
fn test_player_shooting_projectile_position() {
    let mut game_state = GameState::default();
    game_state.player = Player::default();
    game_state.key_states.shift = true;
    game_state.player_shoot_cooldown = 0;

    handle_player_shooting(&mut game_state, secs(0.1));

    assert_eq!(game_state.player_projectiles.len(), 1);

    let projectile = &game_state.player_projectiles[0];
    let (spawn_x, spawn_y) = game_state.player.get_projectile_spawn_position();
    assert_eq!(projectile.position.x, spawn_x);
    assert_eq!(projectile.position.y, spawn_y);
}

// Game logic handles player movement and boundaries
#[test]
fn test_player_movement_and_boundaries() {
    let mut game_state = GameState::default();
    game_state.key_states.left = true;

    game_state.player.position.x = px(30.0);
    update_player(&mut game_state, secs(0.1));

    assert!(game_state.player.position.x >= game_state.player.width / 2);

    game_state.key_states.left = false;
    game_state.key_states.right = true;
    game_state.player.position.x = px(1000.0);
    update_player(&mut game_state, secs(0.1));

    assert!(game_state.player.position.x <= px(1024.0) - game_state.player.width / 2);
}

// Projectile collisions are detected and handled
#[test]
fn test_projectile_collisions() {
    let mut game_state = GameState::default();

    let mut alien = Alien::new(px(100.0), px(100.0), AlienType::Small);
    alien.is_alive = true;
    game_state.alien_formation.aliens.push(alien.clone());

    let projectile =
        Projectile::new(alien.position.x + alien.width / 2, alien.position.y + alien.height / 2, true);
    game_state.player_projectiles.push(projectile);

    check_projectile_collisions(&mut game_state);

    assert!(!game_state.alien_formation.aliens[0].is_alive);
    assert!(game_state.player_projectiles.is_empty());
}

// Game over conditions are detected
#[test]
fn test_game_over_conditions() {
    let mut game_state = GameState::default();

    game_state.lives = 0;
    check_game_over_conditions(&mut game_state);
    assert!(game_state.game_over);
    assert_eq!(game_state.screen, GameScreen::GameOver);

    game_state.game_over = false;
    game_state.screen = GameScreen::Playing;

    for alien in &mut game_state.alien_formation.aliens {
        alien.position.y = game_state.player.position.y - px(40.0);
    }

    check_game_over_conditions(&mut game_state);
    assert!(game_state.game_over);
    assert_eq!(game_state.screen, GameScreen::GameOver);
}
