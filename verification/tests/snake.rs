use snake_game::common::{Direction, Position};
use snake_game::entities::{Entity, Movement, RandomMovement, Snake, StaticMovement};

fn start_snake() -> Snake {
    Snake::new(Position { x: 0, y: 16 }, 5)
}

#[test]
fn new_snake_has_one_segment_and_no_ammo() {
    let s = start_snake();
    assert_eq!(s.positions, vec![Position { x: 0, y: 16 }]);
    assert_eq!(s.head(), Position { x: 0, y: 16 });
    assert_eq!(s.direction, Direction::Right);
    assert_eq!(s.next_direction, Direction::Right);
    assert_eq!(s.ammo, 0);
    assert_eq!(s.max_ammo, 5);
}

#[test]
fn reversal_request_is_dropped_others_taken() {
    let mut s = start_snake();
    s.try_set_direction(Direction::Left);
    assert_eq!(s.next_direction, Direction::Right);
    s.try_set_direction(Direction::Up);
    assert_eq!(s.next_direction, Direction::Up);
    s.try_set_direction(Direction::Down);
    assert_eq!(s.next_direction, Direction::Down);
}

#[test]
fn update_appends_head_and_carries_timer_over() {
    let mut s = start_snake();
    let moved = s.update(130);
    assert!(moved);
    assert_eq!(s.move_timer, -30);
    assert_eq!(
        s.positions,
        vec![Position { x: 0, y: 16 }, Position { x: 1, y: 16 }]
    );
    let moved_again = s.update(50);
    assert!(moved_again);
    assert_eq!(s.move_timer, 20);
    let idle = s.update(10);
    assert!(!idle);
    assert_eq!(s.move_timer, 10);
}

#[test]
fn buffered_turn_commits_on_the_move_tick() {
    let mut s = start_snake();
    s.try_set_direction(Direction::Down);
    assert_eq!(s.direction, Direction::Right);
    let moved = s.update(100);
    assert!(moved);
    assert_eq!(s.direction, Direction::Down);
    assert_eq!(s.head(), Position { x: 0, y: 17 });
}

#[test]
fn self_collision_when_head_revisits_a_cell() {
    let s = Snake {
        positions: vec![
            Position { x: 0, y: 0 },
            Position { x: 1, y: 0 },
            Position { x: 2, y: 0 },
            Position { x: 1, y: 0 },
        ],
        next_direction: Direction::Right,
        direction: Direction::Right,
        move_timer: 0,
        ammo: 0,
        max_ammo: 5,
    };
    assert!(s.self_collision());
}

#[test]
fn no_self_collision_on_distinct_positions() {
    let s = Snake {
        positions: vec![
            Position { x: 0, y: 0 },
            Position { x: 1, y: 0 },
            Position { x: 2, y: 0 },
            Position { x: 3, y: 0 },
        ],
        next_direction: Direction::Right,
        direction: Direction::Right,
        move_timer: 0,
        ammo: 0,
        max_ammo: 5,
    };
    assert!(!s.self_collision());
}

#[test]
fn gain_ammo_saturates_at_capacity() {
    let mut s = start_snake();
    s.gain_ammo(3);
    assert_eq!(s.ammo, 3);
    s.gain_ammo(3);
    assert_eq!(s.ammo, 5);
    s.gain_ammo(1000);
    assert_eq!(s.ammo, 5);
    s.gain_ammo(u32::MAX);
    assert_eq!(s.ammo, 5);
}

#[test]
fn try_shoot_fails_empty_and_decrements_on_success() {
    let mut s = start_snake();
    assert_eq!(s.try_shoot(), None);
    assert_eq!(s.ammo, 0);
    s.gain_ammo(3);
    let shot = s.try_shoot();
    assert_eq!(shot, Some((Position { x: 1, y: 16 }, Direction::Right)));
    assert_eq!(s.ammo, 2);
    // the snake has not moved, so a second shot leaves from the same cell
    let shot2 = s.try_shoot();
    assert_eq!(shot2, Some((Position { x: 1, y: 16 }, Direction::Right)));
    assert_eq!(s.ammo, 1);
}

#[test]
fn static_movement_fires_on_cooldown_with_carryover() {
    let mut m = StaticMovement::new(Direction::Right, 70);
    assert_eq!(m.apply(100), Some((1, 0)));
    assert_eq!(m.timer, -30);
    assert_eq!(m.apply(20), Some((1, 0)));
    assert_eq!(m.timer, 20);
    assert_eq!(m.apply(10), None);
    assert_eq!(m.timer, 10);
}

#[test]
fn random_movement_fires_a_unit_displacement() {
    let mut m = RandomMovement::new(Direction::Down, 300);
    match m.apply(400) {
        Some((dx, dy)) => assert_eq!(dx.abs() + dy.abs(), 1),
        None => panic!("movement should fire when the countdown underflows"),
    }
    assert_eq!(m.timer, -100);
}

#[test]
fn food_and_traps_are_immobile() {
    let mut food = Entity::new_food(Position { x: 4, y: 4 });
    food.update(1000);
    assert_eq!(food.position, Position { x: 4, y: 4 });
    let mut trap = Entity::new_trap(Position { x: 9, y: 9 });
    trap.update(1000);
    assert_eq!(trap.position, Position { x: 9, y: 9 });
}

#[test]
fn bullet_flies_in_its_fixed_direction() {
    let mut b = Entity::new_bullet(Position { x: 0, y: 0 }, Direction::Down);
    b.update(100);
    assert_eq!(b.position, Position { x: 0, y: 1 });
    b.update(70);
    assert_eq!(b.position, Position { x: 0, y: 2 });
    match b.movement {
        Movement::Static(m) => assert_eq!(m.direction, Direction::Down),
        _ => panic!("a bullet moves statically"),
    }
}

#[test]
fn enemy_roams_one_cell_per_firing() {
    let mut e = Entity::new_enemy(Position { x: 16, y: 16 }, Direction::Down);
    e.update(300);
    let dx = (e.position.x - 16).abs();
    let dy = (e.position.y - 16).abs();
    assert_eq!(dx + dy, 1);
}
