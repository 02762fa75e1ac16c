use space_invaders::game::entities::alien::AlienFormation;
use space_invaders::utils::units::{PIXEL, SECOND};

fn px(v: f64) -> i64 {
    (v * PIXEL as f64).round() as i64
}

fn secs(v: f64) -> i64 {
    (v * SECOND as f64).round() as i64
}

// The alien formation moves and changes direction at screen edges
#[test]
fn test_formation_movement() {
    let mut formation = AlienFormation::new(px(1024.0));
    let initial_x = formation.aliens[0].position.x;
    formation.move_timer = formation.move_interval;
    for alien in &mut formation.aliens {
        if alien.is_alive {
            alien.position.x += formation.direction * formation.speed;
        }
    }

    assert!(formation.aliens[0].position.x > initial_x);

    if formation.check_edges() {
        formation.direction *= -1;
        formation.should_descend = true;

        for alien in &mut formation.aliens {
            if alien.is_alive {
                alien.position.y += px(20.0);
            }
        }
    }

    for alien in &mut formation.aliens {
        alien.position.x = px(1000.0);
    }

    assert!(formation.check_edges());

    formation.direction *= -1;
    formation.should_descend = true;
    let initial_y = formation.aliens[0].position.y;

    for alien in &mut formation.aliens {
        if alien.is_alive {
            alien.position.y += px(20.0);
        }
    }

    assert!(formation.aliens[0].position.y > initial_y);
}

// The formation steps faster as aliens are destroyed
#[test]
fn test_formation_speed_increases() {
    let mut formation = AlienFormation::new(px(1024.0));
    let initial_interval = formation.move_interval;

    for i in 0..(formation.aliens.len() / 2) {
        formation.aliens[i].is_alive = false;
        formation.aliens_killed += 1;
    }

    let living_count = formation.count_living();
    let total_aliens = formation.aliens.len();
    let percent_remaining = living_count as f64 / total_aliens as f64;
    formation.move_interval = secs(0.1 + percent_remaining * 0.4);

    assert!(formation.move_interval < initial_interval);
}
