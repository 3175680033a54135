//! One game session: the snake, the food, at most one bullet, the traps and
//! their spawner, an optional roaming enemy, and the Playing/GameOver state
//! machine stepped once per tick.
use vstd::prelude::*;

use crate::common::{
    random_below, random_direction, spec_step, timer_after_tick, timer_fires, Direction, Position,
    MAX_COOLDOWN_MS, MAX_TICK_MS, MIN_TIMER_MS,
};
use crate::entities::{
    seq_self_collision, spec_entity_updated, Entity, EntityKind, Movement, RandomMovement, Snake,
    StaticMovement, BULLET_MOVEMENT_COOLDOWN_MS, ENEMY_MOVEMENT_COOLDOWN_MS,
    SNAKE_MOVEMENT_COOLDOWN_MS,
};

verus! {

/// Grid width in cells; cells with x in [0, GRID_WIDTH) are inside.
pub const GRID_WIDTH: i32 = 32;

/// Grid height in cells; cells with y in [0, GRID_HEIGHT) are inside.
pub const GRID_HEIGHT: i32 = 32;

/// Ammo capacity of the snake.
pub const MAX_AMMO: u32 = 5;

/// Rounds granted for each food item eaten.
pub const AMMO_PER_FOOD: u32 = 3;

/// Trap-spawning cooldown at the start of a session.
pub const TRAP_BASE_COOLDOWN_MS: i64 = 5000;

/// Trap-spawning cooldown once the first ramp threshold is crossed.
pub const TRAP_MEDIUM_COOLDOWN_MS: i64 = 2000;

/// Trap-spawning cooldown once the second ramp threshold is crossed.
pub const TRAP_FAST_COOLDOWN_MS: i64 = 500;

/// Session age at which trap spawning first speeds up.
pub const RAMP_FIRST_MS: i64 = 30_000;

/// Session age at which trap spawning speeds up again.
pub const RAMP_SECOND_MS: i64 = 60_000;

/// Ceiling at which the session age stops counting, so that it can never
/// overflow its machine representation. Both ramp thresholds lie far below.
pub const MAX_TOTAL_MS: i64 = 1_000_000_000_000;

/// Where the snake starts a session.
pub const SNAKE_START_X: i32 = 0;

/// Where the snake starts a session.
pub const SNAKE_START_Y: i32 = 16;

/// Where the enemy starts a session.
pub const ENEMY_START_X: i32 = 16;

/// Where the enemy starts a session.
pub const ENEMY_START_Y: i32 = 16;

/// Whether a position lies inside the grid bounds.
pub open spec fn in_grid(p: Position) -> bool {
    0 <= p.x < GRID_WIDTH && 0 <= p.y < GRID_HEIGHT
}

/// Whether any trap in the list sits at position `p`.
pub open spec fn hits_trap(traps: Seq<Entity>, p: Position) -> bool {
    exists|i: int| 0 <= i < traps.len() && traps[i].position == p
}

/// The trap list with every trap at position `p` removed, order preserved.
pub open spec fn traps_without(traps: Seq<Entity>, p: Position) -> Seq<Entity>
    decreases traps.len(),
{
    if traps.len() == 0 {
        Seq::empty()
    } else {
        let rest = traps_without(traps.drop_last(), p);
        if traps.last().position == p {
            rest
        } else {
            rest.push(traps.last())
        }
    }
}

/// The trap-spawner cooldown after a tick of `dt` milliseconds starting at
/// session age `total`: crossing a ramp threshold shrinks it to that
/// threshold's constant, and crossing both in one tick lands on the faster
/// one. Each threshold fires at most once per session because the session
/// age only increases.
pub open spec fn ramped_cooldown(total: int, dt: int, cooldown: int) -> int {
    if total < RAMP_SECOND_MS && total + dt >= RAMP_SECOND_MS {
        TRAP_FAST_COOLDOWN_MS as int
    } else if total < RAMP_FIRST_MS && total + dt >= RAMP_FIRST_MS {
        TRAP_MEDIUM_COOLDOWN_MS as int
    } else {
        cooldown
    }
}

/// The session age after a tick of `dt` milliseconds, saturating at the
/// counting ceiling.
pub open spec fn clamped_total(total: int, dt: int) -> int {
    if total + dt > MAX_TOTAL_MS {
        MAX_TOTAL_MS as int
    } else {
        total + dt
    }
}

/// A discrete key-press event, as the input collaborator reports it.
#[derive(Clone, Copy, PartialEq, Eq, Structural, Debug)]
pub enum Key {
    Up,
    Down,
    Left,
    Right,
    Fire,
    Confirm,
}

/// A non-fatal notice surfaced to the caller of `handle_key_press`.
#[derive(Clone, Copy, PartialEq, Eq, Structural, Debug)]
pub enum Notice {
    NoAmmo,
    Restarted,
}

/// The direction, if any, that a key asks the snake to turn toward.
pub open spec fn spec_key_direction(key: Key) -> Option<Direction> {
    match key {
        Key::Up => Some(Direction::Up),
        Key::Down => Some(Direction::Down),
        Key::Left => Some(Direction::Left),
        Key::Right => Some(Direction::Right),
        Key::Fire => None,
        Key::Confirm => None,
    }
}

/// Emits a freshly sampled trap position every cooldown interval, on the
/// shared carry-over countdown. The cooldown is shrunk externally by the
/// session's difficulty ramp.
#[derive(Clone, Copy, PartialEq, Eq, Structural, Debug)]
pub struct TrapSpawner {
    pub timer: i64,
    pub cooldown: i64,
}

impl TrapSpawner {
    pub open spec fn wf(self) -> bool {
        &&& MIN_TIMER_MS <= self.timer <= MAX_COOLDOWN_MS
        &&& 0 <= self.cooldown <= MAX_COOLDOWN_MS
    }

    /// One tick with the sampled cell supplied by the caller. Deterministic
    /// in its inputs: yields `cell` exactly when the countdown fires.
    pub fn update_with(&mut self, elapsed_ms: i64, cell: Position) -> (r: Option<Position>)
        requires
            old(self).wf(),
            0 <= elapsed_ms <= MAX_TICK_MS,
        ensures
            final(self).wf(),
            final(self).cooldown == old(self).cooldown,
            final(self).timer == timer_after_tick(
                old(self).timer as int,
                elapsed_ms as int,
                old(self).cooldown as int,
            ),
            r == (if timer_fires(old(self).timer as int, elapsed_ms as int) {
                Some(cell)
            } else {
                Option::<Position>::None
            }),
    {
        let (t, fired) = crate::common::tick_timer(self.timer, elapsed_ms, self.cooldown);
        self.timer = t;
        if fired {
            Some(cell)
        } else {
            None
        }
    }

    /// One tick; when the countdown fires, yields a freshly sampled random
    /// grid position for the caller to materialize as a new trap.
    pub fn update(&mut self, elapsed_ms: i64) -> (r: Option<Position>)
        requires
            old(self).wf(),
            0 <= elapsed_ms <= MAX_TICK_MS,
        ensures
            final(self).wf(),
            final(self).cooldown == old(self).cooldown,
            final(self).timer == timer_after_tick(
                old(self).timer as int,
                elapsed_ms as int,
                old(self).cooldown as int,
            ),
            r is Some <==> timer_fires(old(self).timer as int, elapsed_ms as int),
            r matches Some(p) ==> in_grid(p),
    {
        let cell = Game::random_position();
        self.update_with(elapsed_ms, cell)
    }
}

/// The sampled values one tick of the session may consume: the direction a
/// random mover adopts, the cells food is relocated to when eaten by the
/// snake or by the bullet, and the cell a fresh trap appears on.
#[derive(Clone, Copy, PartialEq, Eq, Structural, Debug)]
pub struct TickDraws {
    pub enemy_direction: Direction,
    pub bullet_direction: Direction,
    pub food_cell: Position,
    pub bullet_food_cell: Position,
    pub trap_cell: Position,
}

/// One game session.
#[derive(Debug)]
pub struct Game {
    pub playing: bool,
    pub snake: Snake,
    pub food: Entity,
    pub bullet: Option<Entity>,
    pub traps: Vec<Entity>,
    pub trap_spawner: TrapSpawner,
    pub enemy: Option<Entity>,
    pub total_elapsed_ms: i64,
}

/// The invariant starting state of a session, fixed apart from where the
/// food was placed.
pub open spec fn is_start_state(g: Game, food_cell: Position) -> bool {
    &&& g.playing
    &&& g.snake.positions@ == seq![Position { x: SNAKE_START_X, y: SNAKE_START_Y }]
    &&& g.snake.direction == Direction::Right
    &&& g.snake.next_direction == Direction::Right
    &&& g.snake.move_timer == 0
    &&& g.snake.ammo == 0
    &&& g.snake.max_ammo == MAX_AMMO
    &&& g.food == (Entity {
        position: food_cell,
        movement: Movement::Immobile,
        kind: EntityKind::Food,
    })
    &&& g.bullet is None
    &&& g.traps@ == Seq::<Entity>::empty()
    &&& g.enemy == Some(
        Entity {
            position: Position { x: ENEMY_START_X, y: ENEMY_START_Y },
            movement: Movement::Random(
                RandomMovement {
                    timer: 0,
                    direction: Direction::Down,
                    cooldown: ENEMY_MOVEMENT_COOLDOWN_MS,
                },
            ),
            kind: EntityKind::Enemy,
        },
    )
    &&& g.trap_spawner == (TrapSpawner { timer: 0, cooldown: TRAP_BASE_COOLDOWN_MS })
    &&& g.total_elapsed_ms == 0
}

/// Resetting a session is deterministic apart from the randomized food
/// placement: any two freshly reset sessions agree on everything but the
/// food position.
pub proof fn lemma_reset_idempotent(g1: Game, g2: Game, f1: Position, f2: Position)
    requires
        is_start_state(g1, f1),
        is_start_state(g2, f2),
    ensures
        g1.playing == g2.playing,
        g1.snake.positions@ == g2.snake.positions@,
        g1.snake.direction == g2.snake.direction,
        g1.snake.next_direction == g2.snake.next_direction,
        g1.snake.move_timer == g2.snake.move_timer,
        g1.snake.ammo == g2.snake.ammo,
        g1.snake.max_ammo == g2.snake.max_ammo,
        g1.bullet == g2.bullet,
        g1.traps@ == g2.traps@,
        g1.enemy == g2.enemy,
        g1.trap_spawner == g2.trap_spawner,
        g1.total_elapsed_ms == g2.total_elapsed_ms,
        g1.food.movement == g2.food.movement,
        g1.food.kind == g2.food.kind,
{
    assert(g1.traps@ =~= g2.traps@);
}

impl Game {
    /// Everything the session owns is well-formed and the session age lies
    /// within its counting range.
    pub open spec fn wf(self) -> bool {
        &&& self.snake.wf()
        &&& self.food.wf()
        &&& (self.bullet matches Some(b) ==> b.wf())
        &&& (self.enemy matches Some(e) ==> e.wf())
        &&& (forall|i: int| 0 <= i < self.traps@.len() ==> (#[trigger] self.traps@[i]).wf())
        &&& self.trap_spawner.wf()
        &&& 0 <= self.total_elapsed_ms <= MAX_TOTAL_MS
    }

    /// A freshly started session, with the food placed at random.
    pub fn new() -> (g: Game)
        ensures
            g.wf(),
            is_start_state(g, g.food.position),
            in_grid(g.food.position),
    {
        let mut g = Game {
            playing: true,
            snake: Snake::new(Position { x: SNAKE_START_X, y: SNAKE_START_Y }, MAX_AMMO),
            food: Entity::new_food(Position { x: 0, y: 0 }),
            bullet: None,
            traps: Vec::new(),
            trap_spawner: TrapSpawner { timer: 0, cooldown: TRAP_BASE_COOLDOWN_MS },
            enemy: None,
            total_elapsed_ms: 0,
        };
        g.set_start_state();
        g
    }

    /// Restarts the session with the food placed on the given cell.
    /// Deterministic in its inputs.
    pub fn set_start_state_with(&mut self, food_cell: Position)
        ensures
            final(self).wf(),
            is_start_state(*final(self), food_cell),
    {
        self.playing = true;
        self.snake = Snake::new(Position { x: SNAKE_START_X, y: SNAKE_START_Y }, MAX_AMMO);
        self.food = Entity::new_food(food_cell);
        self.bullet = None;
        self.traps = Vec::new();
        self.enemy = Some(
            Entity::new_enemy(Position { x: ENEMY_START_X, y: ENEMY_START_Y }, Direction::Down),
        );
        self.trap_spawner = TrapSpawner { timer: 0, cooldown: TRAP_BASE_COOLDOWN_MS };
        self.total_elapsed_ms = 0;
        proof {
            assert(self.traps@ =~= Seq::<Entity>::empty());
        }
    }

    /// Restarts the session: single-segment snake at the fixed start cell
    /// with no ammo, food on a fresh random cell, no bullet, no traps, the
    /// enemy at its fixed start, the spawner at its base cooldown, and the
    /// session age at zero.
    pub fn set_start_state(&mut self)
        ensures
            final(self).wf(),
            is_start_state(*final(self), final(self).food.position),
            in_grid(final(self).food.position),
    {
        let cell = Game::random_position();
        self.set_start_state_with(cell);
    }

    /// A uniformly random grid cell.
    pub fn random_position() -> (r: Position)
        ensures
            in_grid(r),
    {
        let x: u32 = random_below(GRID_WIDTH as u32);
        let y: u32 = random_below(GRID_HEIGHT as u32);
        Position { x: x as i32, y: y as i32 }
    }

    /// Whether a position lies outside the grid bounds [0, W) x [0, H).
    pub fn is_outside_grid(position: &Position) -> (r: bool)
        ensures
            r == !in_grid(*position),
    {
        position.x < 0 || position.x >= GRID_WIDTH || position.y < 0 || position.y >= GRID_HEIGHT
    }

    /// The Playing to GameOver transition: all traps are cleared and play
    /// stops. Everything else is left as it stands.
    pub fn on_game_over(&mut self)
        ensures
            !final(self).playing,
            final(self).traps@ == Seq::<Entity>::empty(),
            final(self).snake == old(self).snake,
            final(self).food == old(self).food,
            final(self).bullet == old(self).bullet,
            final(self).trap_spawner == old(self).trap_spawner,
            final(self).enemy == old(self).enemy,
            final(self).total_elapsed_ms == old(self).total_elapsed_ms,
    {
        self.traps.clear();
        self.playing = false;
    }

    /// Whether any trap in the list sits at position `p`.
    fn traps_contain(traps: &Vec<Entity>, p: Position) -> (r: bool)
        ensures
            r == hits_trap(traps@, p),
    {
        let mut i: usize = 0;
        while i < traps.len()
            invariant
                0 <= i <= traps@.len(),
                forall|j: int| 0 <= j < i ==> traps@[j].position != p,
            decreases traps@.len() - i,
        {
            if traps[i].position == p {
                return true;
            }
            i += 1;
        }
        false
    }

    /// Removes every trap at position `p`, keeping the others in order.
    fn remove_traps_at(traps: &mut Vec<Entity>, p: Position)
        ensures
            final(traps)@ == traps_without(old(traps)@, p),
            (forall|i: int| 0 <= i < old(traps)@.len() ==> (#[trigger] old(traps)@[i]).wf())
                ==> (forall|i: int|
                0 <= i < final(traps)@.len() ==> (#[trigger] final(traps)@[i]).wf()),
    {
        let ghost all_wf = forall|i: int|
            0 <= i < old(traps)@.len() ==> (#[trigger] old(traps)@[i]).wf();
        let mut kept: Vec<Entity> = Vec::new();
        let mut i: usize = 0;
        while i < traps.len()
            invariant
                0 <= i <= traps@.len(),
                traps@ == old(traps)@,
                kept@ == traps_without(traps@.subrange(0, i as int), p),
                all_wf == (forall|k: int|
                    0 <= k < traps@.len() ==> (#[trigger] traps@[k]).wf()),
                all_wf ==> (forall|k: int| 0 <= k < kept@.len() ==> (#[trigger] kept@[k]).wf()),
            decreases traps@.len() - i,
        {
            let t = traps[i];
            proof {
                assert(traps@.subrange(0, i + 1 as int).drop_last() =~= traps@.subrange(
                    0,
                    i as int,
                ));
                assert(traps@.subrange(0, i + 1 as int).last() == traps@[i as int]);
            }
            if t.position != p {
                kept.push(t);
            }
            i += 1;
        }
        proof {
            assert(traps@.subrange(0, traps@.len() as int) =~= traps@);
        }
        *traps = kept;
    }
}

/// How one tick of `dt` milliseconds takes a session from `pre` to `post`,
/// given the sampled values `draws` the tick consumed. When the session is
/// not playing the tick is a no-op. Otherwise, in order: the difficulty
/// ramp adjusts the trap-spawner cooldown and the session age advances; the
/// enemy roams; if the snake's countdown fires it commits its buffered turn
/// and grows a new head, the game ends if that head is out of bounds, on
/// the body, on a trap, or on the enemy (clearing all traps), and the head
/// then either eats the food (relocating it and granting ammo) or the tail
/// is trimmed; the bullet flies, eats food it lands on without granting
/// ammo, and sweeps away traps it sits on; finally the trap spawner may add
/// one fresh trap, even in the tick that ended the game.
pub open spec fn tick_rel(pre: Game, post: Game, dt: int, draws: TickDraws) -> bool {
    if !pre.playing {
        post == pre
    } else {
        let cd1 = ramped_cooldown(
            pre.total_elapsed_ms as int,
            dt,
            pre.trap_spawner.cooldown as int,
        );
        let enemy1 = match pre.enemy {
            Option::Some(e) => Option::Some(spec_entity_updated(e, dt, draws.enemy_direction)),
            Option::None => Option::<Entity>::None,
        };
        let moved = timer_fires(pre.snake.move_timer as int, dt);
        let head1 = spec_step(pre.snake.spec_head(), pre.snake.next_direction);
        let body1 = pre.snake.positions@.push(head1);
        let dead = moved && (!in_grid(head1) || seq_self_collision(body1) || hits_trap(
            pre.traps@,
            head1,
        ) || (enemy1 matches Some(e) && e.position == head1));
        let ate = moved && head1 == pre.food.position;
        let body2 = if !moved {
            pre.snake.positions@
        } else if ate {
            body1
        } else {
            body1.remove(0)
        };
        let ammo2 = if ate {
            if pre.snake.ammo + AMMO_PER_FOOD > pre.snake.max_ammo {
                pre.snake.max_ammo as int
            } else {
                pre.snake.ammo + AMMO_PER_FOOD
            }
        } else {
            pre.snake.ammo as int
        };
        let food1_pos = if ate {
            draws.food_cell
        } else {
            pre.food.position
        };
        let traps1 = if dead {
            Seq::<Entity>::empty()
        } else {
            pre.traps@
        };
        let bullet1 = match pre.bullet {
            Option::Some(b) => Option::Some(spec_entity_updated(b, dt, draws.bullet_direction)),
            Option::None => Option::<Entity>::None,
        };
        let food2_pos = if bullet1 matches Some(b) && b.position == food1_pos {
            draws.bullet_food_cell
        } else {
            food1_pos
        };
        let traps2 = match bullet1 {
            Option::Some(b) => traps_without(traps1, b.position),
            Option::None => traps1,
        };
        let sp_fired = timer_fires(pre.trap_spawner.timer as int, dt);
        let traps3 = if sp_fired {
            traps2.push(
                Entity {
                    position: draws.trap_cell,
                    movement: Movement::Immobile,
                    kind: EntityKind::Trap,
                },
            )
        } else {
            traps2
        };
        &&& post.playing == !dead
        &&& post.snake.positions@ == body2
        &&& post.snake.direction == (if moved {
            pre.snake.next_direction
        } else {
            pre.snake.direction
        })
        &&& post.snake.next_direction == pre.snake.next_direction
        &&& post.snake.move_timer == timer_after_tick(
            pre.snake.move_timer as int,
            dt,
            SNAKE_MOVEMENT_COOLDOWN_MS as int,
        )
        &&& post.snake.ammo == ammo2
        &&& post.snake.max_ammo == pre.snake.max_ammo
        &&& post.food == (Entity {
            position: food2_pos,
            movement: pre.food.movement,
            kind: pre.food.kind,
        })
        &&& post.bullet == bullet1
        &&& post.traps@ == traps3
        &&& post.trap_spawner == (TrapSpawner {
            timer: timer_after_tick(pre.trap_spawner.timer as int, dt, cd1) as i64,
            cooldown: cd1 as i64,
        })
        &&& post.enemy == enemy1
        &&& post.total_elapsed_ms == clamped_total(pre.total_elapsed_ms as int, dt)
    }
}

impl Game {
    /// One tick with every sampled value supplied by the caller.
    /// Deterministic in its inputs; the transition is exactly `tick_rel`.
    #[verifier::rlimit(100)]
    pub fn update_with(&mut self, elapsed_ms: i64, draws: TickDraws)
        requires
            old(self).wf(),
            0 <= elapsed_ms <= MAX_TICK_MS,
        ensures
            final(self).wf(),
            tick_rel(*old(self), *final(self), elapsed_ms as int, draws),
            old(self).playing && timer_fires(old(self).snake.move_timer as int, elapsed_ms as int)
                && spec_step(old(self).snake.spec_head(), old(self).snake.next_direction) == old(
                self,
            ).food.position ==> final(self).snake.positions@.len() == old(
                self,
            ).snake.positions@.len() + 1,
            old(self).playing && timer_fires(old(self).snake.move_timer as int, elapsed_ms as int)
                && spec_step(old(self).snake.spec_head(), old(self).snake.next_direction) != old(
                self,
            ).food.position ==> final(self).snake.positions@.len() == old(
                self,
            ).snake.positions@.len(),
            old(self).playing && !timer_fires(
                old(self).snake.move_timer as int,
                elapsed_ms as int,
            ) ==> final(self).snake.positions@ == old(self).snake.positions@,
    {
        if !self.playing {
            return;
        }
        // difficulty ramp, then advance the session age
        let total0: i64 = self.total_elapsed_ms;
        let sum: i64 = total0 + elapsed_ms;
        if total0 < RAMP_FIRST_MS && sum >= RAMP_FIRST_MS {
            self.trap_spawner.cooldown = TRAP_MEDIUM_COOLDOWN_MS;
        }
        if total0 < RAMP_SECOND_MS && sum >= RAMP_SECOND_MS {
            self.trap_spawner.cooldown = TRAP_FAST_COOLDOWN_MS;
        }
        self.total_elapsed_ms = if sum > MAX_TOTAL_MS {
            MAX_TOTAL_MS
        } else {
            sum
        };
        // the enemy roams even when it would leave the grid
        match self.enemy {
            Some(e0) => {
                let mut e = e0;
                e.update_with(elapsed_ms, draws.enemy_direction);
                self.enemy = Some(e);
            },
            None => {},
        }
        // the snake moves, and the move may end the game
        let moved = self.snake.update(elapsed_ms);
        if moved {
            let head = self.snake.head();
            let mut dead = Game::is_outside_grid(&head) || self.snake.self_collision();
            if !dead && Game::traps_contain(&self.traps, head) {
                dead = true;
            }
            if !dead {
                match &self.enemy {
                    Some(e) => {
                        if e.position == head {
                            dead = true;
                        }
                    },
                    None => {},
                }
            }
            if dead {
                self.on_game_over();
            }
            if head == self.food.position {
                self.food.position = draws.food_cell;
                self.snake.gain_ammo(AMMO_PER_FOOD);
            } else {
                self.snake.positions.remove(0);
            }
        }
        // the bullet flies, eats food without granting ammo, sweeps traps
        match self.bullet {
            Some(b0) => {
                let mut b = b0;
                b.update_with(elapsed_ms, draws.bullet_direction);
                self.bullet = Some(b);
                if b.position == self.food.position {
                    self.food.position = draws.bullet_food_cell;
                }
                Game::remove_traps_at(&mut self.traps, b.position);
            },
            None => {},
        }
        // the spawner may add one fresh trap
        let spawned = self.trap_spawner.update_with(elapsed_ms, draws.trap_cell);
        match spawned {
            Some(p) => {
                self.traps.push(Entity::new_trap(p));
            },
            None => {},
        }
    }

    /// One simulation tick of `elapsed_ms` milliseconds. A no-op when not
    /// playing; otherwise the session steps by `tick_rel` for the sampled
    /// values drawn this tick. The snake's length is unchanged across a
    /// move whose new head is not on the food, and grows by exactly one
    /// where it is.
    pub fn update(&mut self, elapsed_ms: i64)
        requires
            old(self).wf(),
            0 <= elapsed_ms <= MAX_TICK_MS,
        ensures
            final(self).wf(),
            !old(self).playing ==> *final(self) == *old(self),
            exists|draws: TickDraws|
                in_grid(draws.food_cell) && in_grid(draws.bullet_food_cell) && in_grid(
                    draws.trap_cell,
                ) && #[trigger] tick_rel(*old(self), *final(self), elapsed_ms as int, draws),
            old(self).playing && timer_fires(old(self).snake.move_timer as int, elapsed_ms as int)
                && spec_step(old(self).snake.spec_head(), old(self).snake.next_direction) == old(
                self,
            ).food.position ==> final(self).snake.positions@.len() == old(
                self,
            ).snake.positions@.len() + 1,
            old(self).playing && timer_fires(old(self).snake.move_timer as int, elapsed_ms as int)
                && spec_step(old(self).snake.spec_head(), old(self).snake.next_direction) != old(
                self,
            ).food.position ==> final(self).snake.positions@.len() == old(
                self,
            ).snake.positions@.len(),
            old(self).playing && !timer_fires(
                old(self).snake.move_timer as int,
                elapsed_ms as int,
            ) ==> final(self).snake.positions@ == old(self).snake.positions@,
            old(self).playing && timer_fires(old(self).snake.move_timer as int, elapsed_ms as int)
                && ({
                let head1 = spec_step(old(self).snake.spec_head(), old(self).snake.next_direction);
                !in_grid(head1) || seq_self_collision(old(self).snake.positions@.push(head1))
                    || hits_trap(old(self).traps@, head1)
            }) ==> !final(self).playing,
            old(self).playing ==> final(self).total_elapsed_ms == clamped_total(
                old(self).total_elapsed_ms as int,
                elapsed_ms as int,
            ),
    {
        let draws = TickDraws {
            enemy_direction: random_direction(),
            bullet_direction: random_direction(),
            food_cell: Game::random_position(),
            bullet_food_cell: Game::random_position(),
            trap_cell: Game::random_position(),
        };
        self.update_with(elapsed_ms, draws);
    }

    /// One discrete key press. While playing, direction keys buffer a turn
    /// and the fire key spends a round to spawn a bullet (replacing any
    /// bullet already in flight), or yields a no-ammo notice. After a game
    /// over, only the confirm key has effect: it restarts the session. All
    /// other keys are no-ops.
    pub fn handle_key_press(&mut self, key: Key) -> (r: Option<Notice>)
        requires
            old(self).wf(),
        ensures
            final(self).wf(),
            old(self).playing && spec_key_direction(key) is Some ==> ({
                let d = spec_key_direction(key)->0;
                &&& same_but_snake(*old(self), *final(self))
                &&& final(self).snake.positions@ == old(self).snake.positions@
                &&& final(self).snake.direction == old(self).snake.direction
                &&& final(self).snake.move_timer == old(self).snake.move_timer
                &&& final(self).snake.ammo == old(self).snake.ammo
                &&& final(self).snake.max_ammo == old(self).snake.max_ammo
                &&& final(self).snake.next_direction == (if d == old(
                    self,
                ).snake.direction.opposite() {
                    old(self).snake.next_direction
                } else {
                    d
                })
                &&& r is None
            }),
            old(self).playing && key == Key::Fire && old(self).snake.ammo > 0 ==> ({
                &&& same_but_snake_and_bullet(*old(self), *final(self))
                &&& final(self).bullet == Some(
                    Entity {
                        position: spec_step(old(self).snake.spec_head(), old(self).snake.direction),
                        movement: Movement::Static(
                            StaticMovement {
                                timer: 0,
                                direction: old(self).snake.direction,
                                cooldown: BULLET_MOVEMENT_COOLDOWN_MS,
                            },
                        ),
                        kind: EntityKind::Bullet,
                    },
                )
                &&& final(self).snake.ammo == old(self).snake.ammo - 1
                &&& final(self).snake.positions@ == old(self).snake.positions@
                &&& final(self).snake.direction == old(self).snake.direction
                &&& final(self).snake.next_direction == old(self).snake.next_direction
                &&& final(self).snake.move_timer == old(self).snake.move_timer
                &&& final(self).snake.max_ammo == old(self).snake.max_ammo
                &&& r is None
            }),
            old(self).playing && key == Key::Fire && old(self).snake.ammo == 0 ==> *final(self)
                == *old(self) && r == Some(Notice::NoAmmo),
            old(self).playing && key == Key::Confirm ==> *final(self) == *old(self) && r is None,
            !old(self).playing && key == Key::Confirm ==> is_start_state(
                *final(self),
                final(self).food.position,
            ) && in_grid(final(self).food.position) && r == Some(Notice::Restarted),
            !old(self).playing && key != Key::Confirm ==> *final(self) == *old(self) && r is None,
    {
        if self.playing {
            match key {
                Key::Up => {
                    self.snake.try_set_direction(Direction::Up);
                    None
                },
                Key::Down => {
                    self.snake.try_set_direction(Direction::Down);
                    None
                },
                Key::Left => {
                    self.snake.try_set_direction(Direction::Left);
                    None
                },
                Key::Right => {
                    self.snake.try_set_direction(Direction::Right);
                    None
                },
                Key::Fire => {
                    match self.snake.try_shoot() {
                        Some((bullet_position, bullet_direction)) => {
                            self.bullet = Some(
                                Entity::new_bullet(bullet_position, bullet_direction),
                            );
                            None
                        },
                        None => Some(Notice::NoAmmo),
                    }
                },
                Key::Confirm => None,
            }
        } else {
            match key {
                Key::Confirm => {
                    self.set_start_state();
                    Some(Notice::Restarted)
                },
                _ => None,
            }
        }
    }

    /// The snake's body, tail first and head last.
    pub fn snake_body(&self) -> (r: &Vec<Position>)
        ensures
            r@ == self.snake.positions@,
    {
        &self.snake.positions
    }

    /// Whether the session is still in play.
    pub fn is_playing(&self) -> (r: bool)
        ensures
            r == self.playing,
    {
        self.playing
    }

    /// Where the food sits.
    pub fn food_position(&self) -> (r: Position)
        ensures
            r == self.food.position,
    {
        self.food.position
    }

    /// Where the bullet in flight sits, if one exists.
    pub fn bullet_position(&self) -> (r: Option<Position>)
        ensures
            r == (match self.bullet {
                Option::Some(b) => Option::Some(b.position),
                Option::None => Option::<Position>::None,
            }),
    {
        match &self.bullet {
            Some(b) => Some(b.position),
            None => None,
        }
    }

    /// Where each trap sits, in spawn order.
    pub fn trap_positions(&self) -> (r: Vec<Position>)
        ensures
            r@.len() == self.traps@.len(),
            forall|i: int| 0 <= i < r@.len() ==> #[trigger] r@[i] == self.traps@[i].position,
    {
        let mut out: Vec<Position> = Vec::new();
        let mut i: usize = 0;
        while i < self.traps.len()
            invariant
                0 <= i <= self.traps@.len(),
                out@.len() == i,
                forall|j: int| 0 <= j < i ==> #[trigger] out@[j] == self.traps@[j].position,
            decreases self.traps@.len() - i,
        {
            out.push(self.traps[i].position);
            i += 1;
        }
        out
    }

    /// Where the enemy sits, if one exists.
    pub fn enemy_position(&self) -> (r: Option<Position>)
        ensures
            r == (match self.enemy {
                Option::Some(e) => Option::Some(e.position),
                Option::None => Option::<Position>::None,
            }),
    {
        match &self.enemy {
            Some(e) => Some(e.position),
            None => None,
        }
    }

    /// Rounds the snake has in hand.
    pub fn ammo(&self) -> (r: u32)
        ensures
            r == self.snake.ammo,
    {
        self.snake.ammo
    }

    /// The snake's ammo capacity.
    pub fn ammo_capacity(&self) -> (r: u32)
        ensures
            r == self.snake.max_ammo,
    {
        self.snake.max_ammo
    }

    /// The grid dimensions, in cells.
    pub fn grid_size() -> (r: (i32, i32))
        ensures
            r.0 == GRID_WIDTH,
            r.1 == GRID_HEIGHT,
    {
        (GRID_WIDTH, GRID_HEIGHT)
    }
}

/// The two sessions agree on everything apart from the snake.
pub open spec fn same_but_snake(pre: Game, post: Game) -> bool {
    &&& post.playing == pre.playing
    &&& post.food == pre.food
    &&& post.bullet == pre.bullet
    &&& post.traps@ == pre.traps@
    &&& post.trap_spawner == pre.trap_spawner
    &&& post.enemy == pre.enemy
    &&& post.total_elapsed_ms == pre.total_elapsed_ms
}

/// The two sessions agree on everything apart from the snake and the
/// bullet.
pub open spec fn same_but_snake_and_bullet(pre: Game, post: Game) -> bool {
    &&& post.playing == pre.playing
    &&& post.food == pre.food
    &&& post.traps@ == pre.traps@
    &&& post.trap_spawner == pre.trap_spawner
    &&& post.enemy == pre.enemy
    &&& post.total_elapsed_ms == pre.total_elapsed_ms
}

} // verus!
