use space_invaders::game::entities::player::Player;
use space_invaders::utils::units::{PIXEL, SECOND};

fn px(v: f64) -> i64 {
    (v * PIXEL as f64).round() as i64
}

fn secs(v: f64) -> i64 {
    (v * SECOND as f64).round() as i64
}

// A player is created with default values
#[test]
fn test_player_default() {
    let player = Player::default();
    assert_eq!(player.position.x, px(512.0));
    assert_eq!(player.position.y, px(690.0));
    assert_eq!(player.width, px(50.0));
    assert_eq!(player.height, px(30.0));
    assert_eq!(player.speed, 200);
    assert!(!player.is_hit);
    assert_eq!(player.hit_animation_time, 0);
    assert_eq!(player.projectile_spawn_x, px(0.0));
    assert_eq!(player.projectile_spawn_y, px(-15.0));
}

// move_left updates the player position
#[test]
fn test_move_left() {
    let mut player = Player::default();
    let initial_x = player.position.x;
    player.move_left(secs(0.1), px(0.0));
    assert!(player.position.x < initial_x);
    assert_eq!(player.position.x, initial_x - player.speed * secs(0.1));
    assert_eq!(player.position.x, px(492.0));
}

// move_right updates the player position
#[test]
fn test_move_right() {
    let mut player = Player::default();
    let initial_x = player.position.x;
    player.move_right(secs(0.1), px(1024.0));
    assert!(player.position.x > initial_x);
    assert_eq!(player.position.x, initial_x + player.speed * secs(0.1));
    assert_eq!(player.position.x, px(532.0));
}

// The player respects the left boundary
#[test]
fn test_left_boundary() {
    let mut player = Player::default();
    let boundary = px(100.0);
    player.position.x = boundary + player.width;
    player.move_left(secs(1.0), boundary);
    assert_eq!(player.position.x, boundary + player.width / 2);
}

// The player respects the right boundary
#[test]
fn test_right_boundary() {
    let mut player = Player::default();
    let boundary = px(800.0);
    player.position.x = boundary - player.width;
    player.move_right(secs(1.0), boundary);
    assert_eq!(player.position.x, boundary - player.width / 2);
}

// get_projectile_spawn_position returns the correct position
#[test]
fn test_projectile_spawn_position() {
    let player = Player::default();
    let (spawn_x, spawn_y) = player.get_projectile_spawn_position();
    assert_eq!(spawn_x, player.position.x + player.projectile_spawn_x);
    assert_eq!(spawn_y, player.position.y + player.projectile_spawn_y);
}

// Player movement works with game boundaries
#[test]
fn test_player_movement_with_boundaries() {
    let mut player = Player::default();
    let left_boundary = px(0.0);
    let right_boundary = px(1024.0);

    player.position.x = left_boundary + px(30.0);
    player.move_left(secs(0.5), left_boundary);

    assert!(player.position.x >= left_boundary + player.width / 2);

    player.position.x = right_boundary - px(30.0);
    player.move_right(secs(0.5), right_boundary);

    assert!(player.position.x <= right_boundary - player.width / 2);
}

// The player's projectile spawn position is calculated from the offsets
#[test]
fn test_player_projectile_position() {
    let mut player = Player::default();
    player.position.x = px(500.0);
    player.position.y = px(700.0);
    player.projectile_spawn_x = px(5.0);
    player.projectile_spawn_y = px(-20.0);

    let (spawn_x, spawn_y) = player.get_projectile_spawn_position();
    assert_eq!(spawn_x, px(505.0));
    assert_eq!(spawn_y, px(680.0));
}

// Whatever the elapsed time, the ship stays between its limits
#[test]
fn test_player_stays_between_limits_for_any_dt() {
    let left = px(0.0);
    let right = px(1024.0);
    for dt in [0, 1, 16_667, secs(0.1), secs(1.0), secs(100.0), i64::MAX] {
        let mut player = Player::default();
        player.move_left(dt, left);
        assert!(player.position.x >= left + player.width / 2);
        assert!(player.position.x <= right - player.width / 2);
        let mut player = Player::default();
        player.move_right(dt, right);
        assert!(player.position.x >= left + player.width / 2);
        assert!(player.position.x <= right - player.width / 2);
    }
}

// Sums that leave the 64-bit range stick at its ends
#[test]
fn test_player_spawn_position_saturates() {
    let mut player = Player::default();
    player.position.x = i64::MAX;
    player.projectile_spawn_x = 1;
    player.position.y = i64::MIN;
    player.projectile_spawn_y = -1;
    assert_eq!(player.get_projectile_spawn_position(), (i64::MAX, i64::MIN));
}
