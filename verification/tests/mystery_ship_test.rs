use space_invaders::game::entities::mystery_ship::MysteryShip;
use space_invaders::utils::units::{PIXEL, SECOND};

fn px(v: f64) -> i64 {
    (v * PIXEL as f64).round() as i64
}

fn secs(v: f64) -> i64 {
    (v * SECOND as f64).round() as i64
}

// A new mystery ship is created with the correct initial properties
#[test]
fn test_mystery_ship_creation() {
    let ship = MysteryShip::new();
    assert_eq!(ship.position.x, px(-50.0));
    assert_eq!(ship.position.y, px(10.0));
    assert_eq!(ship.width, px(60.0));
    assert_eq!(ship.height, px(20.0));
    assert_eq!(ship.speed, 4);
    assert!(!ship.active);
    assert_eq!(ship.direction, 1);
    assert_eq!(ship.points, 100);
}

// An inactive ship doesn't move when updated
#[test]
fn test_inactive_ship_doesnt_move() {
    let mut ship = MysteryShip::new();
    let initial_x = ship.position.x;

    ship.update(secs(0.1), px(800.0));

    assert_eq!(ship.position.x, initial_x);
}

// An active ship moves in the correct direction
#[test]
fn test_active_ship_movement() {
    let mut ship = MysteryShip::new();
    ship.active = true;
    let initial_x = ship.position.x;

    ship.direction = 1;
    ship.update(secs(0.1), px(800.0));
    assert!(ship.position.x > initial_x);

    let current_x = ship.position.x;
    ship.direction = -1;
    ship.update(secs(0.1), px(800.0));
    assert!(ship.position.x < current_x);
}

// A ship becomes inactive when it moves off-screen
#[test]
fn test_ship_becomes_inactive_offscreen() {
    let mut ship = MysteryShip::new();
    ship.active = true;

    ship.direction = 1;
    ship.position.x = px(830.0);
    ship.update(secs(0.1), px(800.0));
    assert!(!ship.active);

    ship.active = true;
    ship.direction = -1;
    ship.position.x = px(-45.0);
    ship.update(secs(0.1), px(800.0));
    assert!(!ship.active);
}

// The mystery ship interacts with the game boundaries
#[test]
fn test_mystery_ship_boundaries() {
    let game_width = px(800.0);
    let mut ship = MysteryShip::new();
    ship.active = true;

    ship.position.x = game_width - px(10.0);
    ship.direction = 1;

    ship.update(secs(0.5), game_width);
    assert!(!ship.active);

    ship.active = true;
    ship.position.x = px(-40.0);
    ship.direction = -1;

    ship.update(secs(0.5), game_width);
    assert!(!ship.active);
}

// The mystery ship moves at the expected speed
#[test]
fn test_mystery_ship_speed() {
    let mut ship = MysteryShip::new();
    ship.active = true;
    ship.position.x = px(100.0);
    ship.speed = 5;
    ship.direction = 1;

    let dt = secs(0.1);
    ship.update(dt, px(800.0));

    let expected_x = px(100.0) + (5 * 1 * dt * 60);
    assert_eq!(ship.position.x, expected_x);
    assert_eq!(ship.position.x, px(130.0));
}

// A ship that flies on stays active until it is past the margin
#[test]
fn test_mystery_ship_margin_is_exclusive() {
    let mut ship = MysteryShip::new();
    ship.active = true;
    ship.speed = 0;
    ship.direction = 1;
    ship.position.x = px(850.0);
    ship.update(secs(0.1), px(800.0));
    assert!(ship.active);
    ship.position.x = px(850.0) + 1;
    ship.update(secs(0.1), px(800.0));
    assert!(!ship.active);
}
