use snake_game::common::{Direction, Position};
use snake_game::entities::Entity;
use snake_game::game::{Game, Key, Notice, TickDraws, TrapSpawner};

fn draws() -> TickDraws {
    TickDraws {
        enemy_direction: Direction::Down,
        bullet_direction: Direction::Down,
        food_cell: Position { x: 2, y: 2 },
        bullet_food_cell: Position { x: 8, y: 8 },
        trap_cell: Position { x: 30, y: 30 },
    }
}

/// A started session with the food on a chosen cell and the trap spawner
/// held back so that no trap appears during the first few ticks.
fn started(food: Position) -> Game {
    let mut g = Game::new();
    g.set_start_state_with(food);
    g.trap_spawner.timer = 1000;
    g
}

#[test]
fn outside_grid_classification() {
    assert!(Game::is_outside_grid(&Position { x: 32, y: 5 }));
    assert!(Game::is_outside_grid(&Position { x: -1, y: 5 }));
    assert!(!Game::is_outside_grid(&Position { x: 31, y: 31 }));
    assert!(!Game::is_outside_grid(&Position { x: 0, y: 0 }));
}

#[test]
fn move_tick_without_food_keeps_length() {
    let mut g = started(Position { x: 5, y: 5 });
    g.update_with(100, draws());
    assert!(g.playing);
    assert_eq!(g.snake.positions, vec![Position { x: 1, y: 16 }]);
    assert_eq!(g.snake.head(), Position { x: 1, y: 16 });
    assert_eq!(g.snake.ammo, 0);
}

#[test]
fn eating_food_relocates_it_and_grants_ammo() {
    let mut g = started(Position { x: 1, y: 16 });
    g.update_with(100, draws());
    assert!(g.playing);
    assert_eq!(g.snake.positions.len(), 2);
    assert_eq!(g.snake.head(), Position { x: 1, y: 16 });
    assert_ne!(g.food.position, Position { x: 1, y: 16 });
    assert_eq!(g.food.position, Position { x: 2, y: 2 });
    assert_eq!(g.snake.ammo, 3);
}

#[test]
fn ammo_gained_from_food_caps_at_capacity() {
    let mut g = started(Position { x: 1, y: 16 });
    g.snake.gain_ammo(4);
    g.update_with(100, draws());
    assert_eq!(g.snake.ammo, 5);
}

#[test]
fn trap_spawner_fires_once_with_carryover() {
    let mut sp = TrapSpawner {
        timer: 0,
        cooldown: 5000,
    };
    let fired = sp.update_with(5100, Position { x: 7, y: 7 });
    assert_eq!(fired, Some(Position { x: 7, y: 7 }));
    assert_eq!(sp.timer, -100);
    assert_eq!(sp.cooldown, 5000);
}

#[test]
fn trap_spawner_samples_a_grid_cell() {
    let mut sp = TrapSpawner {
        timer: 0,
        cooldown: 5000,
    };
    match sp.update(5100) {
        Some(p) => assert!(!Game::is_outside_grid(&p)),
        None => panic!("the spawner fires when its countdown underflows"),
    }
    // the carried-over overshoot makes it fire once more before going quiet
    assert_eq!(sp.timer, -100);
    assert!(sp.update(100).is_some());
    assert_eq!(sp.timer, 4800);
    let quiet = sp.update(100);
    assert_eq!(quiet, None);
    assert_eq!(sp.timer, 4700);
}

#[test]
fn reset_twice_gives_the_same_state_modulo_food() {
    let mut g = Game::new();
    g.update(100);
    g.set_start_state();
    let snake1 = g.snake.positions.clone();
    let ammo1 = g.snake.ammo;
    let spawner1 = g.trap_spawner;
    let enemy1 = g.enemy.clone();
    let food1_in_grid = !Game::is_outside_grid(&g.food.position);
    g.set_start_state();
    assert!(g.playing);
    assert_eq!(g.snake.positions, snake1);
    assert_eq!(g.snake.positions, vec![Position { x: 0, y: 16 }]);
    assert_eq!(g.snake.ammo, ammo1);
    assert_eq!(g.snake.ammo, 0);
    assert_eq!(g.trap_spawner, spawner1);
    assert_eq!(g.trap_spawner, TrapSpawner { timer: 0, cooldown: 5000 });
    assert_eq!(g.enemy.as_ref().map(|e| e.position), enemy1.map(|e| e.position));
    assert!(g.bullet.is_none());
    assert!(g.traps.is_empty());
    assert_eq!(g.total_elapsed_ms, 0);
    assert!(food1_in_grid);
    assert!(!Game::is_outside_grid(&g.food.position));
}

#[test]
fn leaving_the_grid_ends_the_game() {
    let mut g = started(Position { x: 5, y: 5 });
    g.snake.positions = vec![Position { x: 0, y: 0 }];
    g.snake.next_direction = Direction::Up;
    g.update_with(100, draws());
    assert!(!g.playing);
    assert!(g.traps.is_empty());
}

#[test]
fn self_collision_ends_the_game() {
    let mut g = started(Position { x: 5, y: 5 });
    g.snake.positions = vec![Position { x: 1, y: 16 }, Position { x: 0, y: 16 }];
    g.update_with(100, draws());
    assert!(!g.playing);
}

#[test]
fn stepping_on_a_trap_ends_the_game_and_clears_traps() {
    let mut g = started(Position { x: 5, y: 5 });
    g.traps.push(Entity::new_trap(Position { x: 1, y: 16 }));
    g.traps.push(Entity::new_trap(Position { x: 20, y: 20 }));
    g.update_with(100, draws());
    assert!(!g.playing);
    assert!(g.traps.is_empty());
}

#[test]
fn meeting_the_enemy_ends_the_game() {
    let mut g = started(Position { x: 5, y: 5 });
    g.enemy = Some(Entity::new_enemy(Position { x: 1, y: 15 }, Direction::Down));
    // the enemy's countdown fires on this tick and it steps down onto the
    // cell the snake's head moves to
    g.update_with(100, draws());
    assert!(!g.playing);
}

#[test]
fn no_update_after_game_over() {
    let mut g = started(Position { x: 5, y: 5 });
    g.snake.positions = vec![Position { x: 0, y: 0 }];
    g.snake.next_direction = Direction::Up;
    g.update_with(100, draws());
    assert!(!g.playing);
    let elapsed = g.total_elapsed_ms;
    let body = g.snake.positions.clone();
    g.update_with(100, draws());
    assert_eq!(g.total_elapsed_ms, elapsed);
    assert_eq!(g.snake.positions, body);
}

#[test]
fn direction_keys_buffer_a_turn() {
    let mut g = started(Position { x: 5, y: 5 });
    assert_eq!(g.handle_key_press(Key::Down), None);
    assert_eq!(g.snake.next_direction, Direction::Down);
    assert_eq!(g.snake.direction, Direction::Right);
    // a reversal request is silently dropped
    assert_eq!(g.handle_key_press(Key::Left), None);
    assert_eq!(g.snake.next_direction, Direction::Down);
}

#[test]
fn firing_without_ammo_is_a_notice() {
    let mut g = started(Position { x: 5, y: 5 });
    assert_eq!(g.handle_key_press(Key::Fire), Some(Notice::NoAmmo));
    assert!(g.bullet.is_none());
    assert_eq!(g.snake.ammo, 0);
}

#[test]
fn firing_spawns_a_bullet_one_step_ahead() {
    let mut g = started(Position { x: 5, y: 5 });
    g.snake.gain_ammo(3);
    assert_eq!(g.handle_key_press(Key::Fire), None);
    assert_eq!(g.snake.ammo, 2);
    let b = g.bullet.as_ref().expect("a bullet should have spawned");
    assert_eq!(b.position, Position { x: 1, y: 16 });
    // firing again replaces the bullet in flight
    assert_eq!(g.handle_key_press(Key::Fire), None);
    assert_eq!(g.snake.ammo, 1);
    assert_eq!(
        g.bullet.as_ref().map(|b| b.position),
        Some(Position { x: 1, y: 16 })
    );
}

#[test]
fn bullet_destroys_traps_and_eats_food_without_ammo() {
    let mut g = started(Position { x: 2, y: 16 });
    g.snake.gain_ammo(1);
    g.handle_key_press(Key::Fire);
    assert_eq!(g.snake.ammo, 0);
    // the bullet sits at (1,16) and flies right onto (2,16), where both a
    // trap and the food sit; the snake turns away so it does not eat
    g.traps.push(Entity::new_trap(Position { x: 2, y: 16 }));
    g.handle_key_press(Key::Down);
    let d = TickDraws {
        enemy_direction: Direction::Up,
        bullet_direction: Direction::Up,
        food_cell: Position { x: 9, y: 9 },
        bullet_food_cell: Position { x: 8, y: 8 },
        trap_cell: Position { x: 30, y: 30 },
    };
    g.update_with(100, d);
    assert!(g.playing);
    assert_eq!(g.bullet.as_ref().map(|b| b.position), Some(Position { x: 2, y: 16 }));
    assert_eq!(g.food.position, Position { x: 8, y: 8 });
    assert_eq!(g.snake.ammo, 0);
    assert!(g.traps.is_empty());
}

#[test]
fn difficulty_ramp_shrinks_the_spawner_cooldown() {
    let mut g = started(Position { x: 5, y: 5 });
    g.total_elapsed_ms = 29_950;
    g.update_with(100, draws());
    assert_eq!(g.trap_spawner.cooldown, 2000);
    assert_eq!(g.total_elapsed_ms, 30_050);

    let mut g2 = started(Position { x: 5, y: 5 });
    g2.total_elapsed_ms = 59_950;
    g2.update_with(100, draws());
    assert_eq!(g2.trap_spawner.cooldown, 500);

    // one oversized tick that straddles both thresholds lands on the faster
    // cooldown
    let mut g3 = started(Position { x: 5, y: 5 });
    g3.update_with(70_000, draws());
    assert_eq!(g3.trap_spawner.cooldown, 500);
}

#[test]
fn spawner_adds_a_trap_when_it_fires() {
    let mut g = started(Position { x: 5, y: 5 });
    g.trap_spawner.timer = 0;
    g.update_with(100, draws());
    assert_eq!(g.traps.len(), 1);
    assert_eq!(g.traps[0].position, Position { x: 30, y: 30 });
}

#[test]
fn confirm_restarts_only_after_game_over() {
    let mut g = started(Position { x: 5, y: 5 });
    assert_eq!(g.handle_key_press(Key::Confirm), None);
    assert!(g.playing);
    g.snake.positions = vec![Position { x: 0, y: 0 }];
    g.snake.next_direction = Direction::Up;
    g.update_with(100, draws());
    assert!(!g.playing);
    // other keys are ignored after a game over
    assert_eq!(g.handle_key_press(Key::Up), None);
    assert_eq!(g.handle_key_press(Key::Fire), None);
    assert!(!g.playing);
    assert_eq!(g.handle_key_press(Key::Confirm), Some(Notice::Restarted));
    assert!(g.playing);
    assert_eq!(g.snake.positions, vec![Position { x: 0, y: 16 }]);
    assert_eq!(g.snake.ammo, 0);
    assert_eq!(g.total_elapsed_ms, 0);
}

#[test]
fn accessors_report_the_session_state() {
    let mut g = started(Position { x: 5, y: 5 });
    assert!(g.is_playing());
    assert_eq!(g.food_position(), Position { x: 5, y: 5 });
    assert_eq!(g.bullet_position(), None);
    assert_eq!(g.ammo(), 0);
    assert_eq!(g.ammo_capacity(), 5);
    assert_eq!(g.snake_body(), &vec![Position { x: 0, y: 16 }]);
    assert_eq!(g.enemy_position(), Some(Position { x: 16, y: 16 }));
    assert_eq!(Game::grid_size(), (32, 32));
    g.traps.push(Entity::new_trap(Position { x: 3, y: 4 }));
    g.traps.push(Entity::new_trap(Position { x: 5, y: 6 }));
    assert_eq!(
        g.trap_positions(),
        vec![Position { x: 3, y: 4 }, Position { x: 5, y: 6 }]
    );
}

#[test]
fn zero_elapsed_tick_moves_nothing() {
    let mut g = started(Position { x: 5, y: 5 });
    g.update_with(0, draws());
    assert!(g.playing);
    assert_eq!(g.snake.positions, vec![Position { x: 0, y: 16 }]);
    assert_eq!(g.total_elapsed_ms, 0);
    assert_eq!(g.enemy_position(), Some(Position { x: 16, y: 16 }));
}

// A bullet has no lifetime limit and is not despawned on leaving the grid:
// an accepted quirk of the game, preserved rather than fixed.
#[test]
fn bullet_persists_beyond_the_grid() {
    let mut g = started(Position { x: 5, y: 5 });
    g.bullet = Some(Entity::new_bullet(Position { x: 31, y: 0 }, Direction::Right));
    g.update_with(100, draws());
    assert!(g.playing);
    assert_eq!(g.bullet_position(), Some(Position { x: 32, y: 0 }));
}

// The enemy is likewise never bounded to the grid: it may roam outside,
// where it is harmless until it wanders back.
#[test]
fn enemy_may_roam_off_grid() {
    let mut g = started(Position { x: 5, y: 5 });
    g.enemy = Some(Entity::new_enemy(Position { x: 31, y: 10 }, Direction::Down));
    let d = TickDraws {
        enemy_direction: Direction::Right,
        ..draws()
    };
    g.update_with(100, d);
    assert!(g.playing);
    assert_eq!(g.enemy_position(), Some(Position { x: 32, y: 10 }));
}

#[test]
fn session_age_saturates_at_its_ceiling() {
    let mut g = started(Position { x: 5, y: 5 });
    g.total_elapsed_ms = 999_999_999_950;
    g.update_with(100, draws());
    assert_eq!(g.total_elapsed_ms, 1_000_000_000_000);
}

#[test]
fn random_positions_lie_in_the_grid() {
    for _ in 0..200 {
        let p = Game::random_position();
        assert!(!Game::is_outside_grid(&p));
        assert!(0 <= p.x && p.x < 32 && 0 <= p.y && p.y < 32);
    }
}
