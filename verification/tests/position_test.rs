use space_invaders::game::entities::player::Player;
use space_invaders::utils::position::Position;
use space_invaders::utils::units::PIXEL;

fn px(v: f64) -> i64 {
    (v * PIXEL as f64).round() as i64
}

fn pixels(v: i64) -> f32 {
    (v as f64 / PIXEL as f64) as f32
}

// A new position is created with the correct coordinates
#[test]
fn test_position_new() {
    let pos = Position::new(px(10.0), px(20.0));
    assert_eq!(pos.x, px(10.0));
    assert_eq!(pos.y, px(20.0));
}

// Position implements PartialEq
#[test]
fn test_position_equality() {
    let pos1 = Position::new(px(10.0), px(20.0));
    let pos2 = Position::new(px(10.0), px(20.0));
    let pos3 = Position::new(px(30.0), px(40.0));

    assert_eq!(pos1, pos2);
    assert_ne!(pos1, pos3);
}

// Position can be cloned
#[test]
fn test_position_clone() {
    let pos = Position::new(px(10.0), px(20.0));
    let cloned_pos = pos.clone();

    assert_eq!(pos, cloned_pos);
}

// Position implements Debug
#[test]
fn test_position_debug() {
    let pos = Position::new(px(10.0), px(20.0));
    let debug_str = format!("{:?}", pos);

    assert!(debug_str.contains("10"));
    assert!(debug_str.contains("20"));
}

// Position works with game entities
#[test]
fn test_position_with_game_entities() {
    let pos = Position::new(px(100.0), px(200.0));

    let mut player = Player::default();
    player.position = pos.clone();

    assert_eq!(player.position.x, px(100.0));
    assert_eq!(player.position.y, px(200.0));

    player.position.x += px(50.0);

    assert_eq!(player.position.x, px(150.0));
    assert_eq!(player.position.y, px(200.0));
}

// Position can be used for collision detection
#[test]
fn test_position_for_collision_detection() {
    let pos1 = Position::new(px(100.0), px(100.0));
    let pos2 = Position::new(px(110.0), px(110.0));

    let dx = pixels(pos1.x - pos2.x);
    let dy = pixels(pos1.y - pos2.y);
    let distance = (dx * dx + dy * dy).sqrt();

    assert_eq!(distance, 14.142136);

    let collision_threshold = 20.0;
    let collision = distance < collision_threshold;

    assert!(collision);
}
