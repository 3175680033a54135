//! Moving grid objects: movement strategies, the entities they drive (food,
//! bullet, trap, enemy), and the snake itself.
use vstd::prelude::*;

use crate::common::{
    random_direction, spec_step, tick_timer, timer_after_tick, timer_fires, Direction, Position,
    MAX_COOLDOWN_MS, MAX_TICK_MS, MIN_TIMER_MS,
};

verus! {

/// Milliseconds between successive snake moves.
pub const SNAKE_MOVEMENT_COOLDOWN_MS: i64 = 100;

/// Milliseconds between successive bullet moves.
pub const BULLET_MOVEMENT_COOLDOWN_MS: i64 = 70;

/// Milliseconds between successive enemy moves.
pub const ENEMY_MOVEMENT_COOLDOWN_MS: i64 = 300;

/// A countdown-driven mover that always steps in one fixed direction.
#[derive(Clone, Copy, PartialEq, Eq, Structural, Debug)]
pub struct StaticMovement {
    pub timer: i64,
    pub direction: Direction,
    pub cooldown: i64,
}

/// A countdown-driven mover that re-samples a uniformly random direction
/// each time it fires.
#[derive(Clone, Copy, PartialEq, Eq, Structural, Debug)]
pub struct RandomMovement {
    pub timer: i64,
    pub direction: Direction,
    pub cooldown: i64,
}

/// How an entity moves, if at all. "Has no strategy" and "has a strategy
/// that yields no displacement this tick" stay distinct.
#[derive(Clone, Copy, PartialEq, Eq, Structural, Debug)]
pub enum Movement {
    Immobile,
    Static(StaticMovement),
    Random(RandomMovement),
}

impl StaticMovement {
    pub open spec fn wf(self) -> bool {
        &&& MIN_TIMER_MS <= self.timer <= MAX_COOLDOWN_MS
        &&& 0 <= self.cooldown <= MAX_COOLDOWN_MS
    }

    pub fn new(direction: Direction, cooldown: i64) -> (r: StaticMovement)
        requires
            0 <= cooldown <= MAX_COOLDOWN_MS,
        ensures
            r == (StaticMovement { timer: 0, direction, cooldown }),
            r.wf(),
    {
        StaticMovement { timer: 0, direction, cooldown }
    }

    /// Advances the countdown; when it fires, yields the fixed direction's
    /// displacement.
    pub fn apply(&mut self, elapsed_ms: i64) -> (r: Option<(i32, i32)>)
        requires
            old(self).wf(),
            0 <= elapsed_ms <= MAX_TICK_MS,
        ensures
            final(self).wf(),
            final(self).direction == old(self).direction,
            final(self).cooldown == old(self).cooldown,
            final(self).timer == timer_after_tick(
                old(self).timer as int,
                elapsed_ms as int,
                old(self).cooldown as int,
            ),
            r is Some <==> timer_fires(old(self).timer as int, elapsed_ms as int),
            r matches Some(v) ==> v.0 == old(self).direction.spec_offset().0
                && v.1 == old(self).direction.spec_offset().1,
    {
        let (t, fired) = tick_timer(self.timer, elapsed_ms, self.cooldown);
        self.timer = t;
        if fired {
            Some(self.direction.as_tuple())
        } else {
            None
        }
    }
}

impl RandomMovement {
    pub open spec fn wf(self) -> bool {
        &&& MIN_TIMER_MS <= self.timer <= MAX_COOLDOWN_MS
        &&& 0 <= self.cooldown <= MAX_COOLDOWN_MS
    }

    pub fn new(direction: Direction, cooldown: i64) -> (r: RandomMovement)
        requires
            0 <= cooldown <= MAX_COOLDOWN_MS,
        ensures
            r == (RandomMovement { timer: 0, direction, cooldown }),
            r.wf(),
    {
        RandomMovement { timer: 0, direction, cooldown }
    }

    /// Advances the countdown; when it fires, adopts `sampled` as the new
    /// direction and yields its displacement. Deterministic in its inputs.
    pub fn apply_with(&mut self, elapsed_ms: i64, sampled: Direction) -> (r: Option<(i32, i32)>)
        requires
            old(self).wf(),
            0 <= elapsed_ms <= MAX_TICK_MS,
        ensures
            final(self).wf(),
            final(self).cooldown == old(self).cooldown,
            final(self).timer == timer_after_tick(
                old(self).timer as int,
                elapsed_ms as int,
                old(self).cooldown as int,
            ),
            r is Some <==> timer_fires(old(self).timer as int, elapsed_ms as int),
            timer_fires(old(self).timer as int, elapsed_ms as int) ==> final(self).direction
                == sampled,
            !timer_fires(old(self).timer as int, elapsed_ms as int) ==> final(self).direction
                == old(self).direction,
            r matches Some(v) ==> v.0 == sampled.spec_offset().0 && v.1
                == sampled.spec_offset().1,
    {
        let (t, fired) = tick_timer(self.timer, elapsed_ms, self.cooldown);
        self.timer = t;
        if fired {
            self.direction = sampled;
            Some(self.direction.as_tuple())
        } else {
            None
        }
    }

    /// Advances the countdown; when it fires, re-samples a uniformly random
    /// direction (which may repeat the previous one) and yields its
    /// displacement.
    pub fn apply(&mut self, elapsed_ms: i64) -> (r: Option<(i32, i32)>)
        requires
            old(self).wf(),
            0 <= elapsed_ms <= MAX_TICK_MS,
        ensures
            final(self).wf(),
            final(self).cooldown == old(self).cooldown,
            final(self).timer == timer_after_tick(
                old(self).timer as int,
                elapsed_ms as int,
                old(self).cooldown as int,
            ),
            r is Some <==> timer_fires(old(self).timer as int, elapsed_ms as int),
            !timer_fires(old(self).timer as int, elapsed_ms as int) ==> final(self).direction
                == old(self).direction,
            r matches Some(v) ==> v.0 == final(self).direction.spec_offset().0
                && v.1 == final(self).direction.spec_offset().1,
    {
        let sampled = random_direction();
        self.apply_with(elapsed_ms, sampled)
    }
}

/// What a positioned grid object stands for; rendering maps each kind to its
/// colour.
#[derive(Clone, Copy, PartialEq, Eq, Structural, Debug)]
pub enum EntityKind {
    Food,
    Bullet,
    Trap,
    Enemy,
}

/// A positioned grid object, optionally driven by a movement strategy.
#[derive(Clone, Copy, PartialEq, Eq, Structural, Debug)]
pub struct Entity {
    pub position: Position,
    pub movement: Movement,
    pub kind: EntityKind,
}

impl Movement {
    pub open spec fn wf(self) -> bool {
        match self {
            Movement::Immobile => true,
            Movement::Static(m) => m.wf(),
            Movement::Random(m) => m.wf(),
        }
    }
}

/// The entity that results from one tick of `dt` milliseconds, where
/// `sampled` is the direction a random mover adopts if it fires this tick.
/// An immobile entity is unchanged; a mover's countdown advances, and if it
/// fires the entity steps one cell.
pub open spec fn spec_entity_updated(e: Entity, dt: int, sampled: Direction) -> Entity {
    match e.movement {
        Movement::Immobile => e,
        Movement::Static(m) => {
            let m2 = StaticMovement {
                timer: timer_after_tick(m.timer as int, dt, m.cooldown as int) as i64,
                direction: m.direction,
                cooldown: m.cooldown,
            };
            Entity {
                position: if timer_fires(m.timer as int, dt) {
                    spec_step(e.position, m.direction)
                } else {
                    e.position
                },
                movement: Movement::Static(m2),
                kind: e.kind,
            }
        },
        Movement::Random(m) => {
            let fired = timer_fires(m.timer as int, dt);
            let m2 = RandomMovement {
                timer: timer_after_tick(m.timer as int, dt, m.cooldown as int) as i64,
                direction: if fired {
                    sampled
                } else {
                    m.direction
                },
                cooldown: m.cooldown,
            };
            Entity {
                position: if fired {
                    spec_step(e.position, sampled)
                } else {
                    e.position
                },
                movement: Movement::Random(m2),
                kind: e.kind,
            }
        },
    }
}

impl Entity {
    pub open spec fn wf(self) -> bool {
        self.movement.wf()
    }

    /// An immobile food item; it is repositioned externally when consumed.
    pub fn new_food(position: Position) -> (r: Entity)
        ensures
            r == (Entity { position, movement: Movement::Immobile, kind: EntityKind::Food }),
            r.wf(),
    {
        Entity { position, movement: Movement::Immobile, kind: EntityKind::Food }
    }

    /// A bullet that flies in a fixed direction.
    pub fn new_bullet(position: Position, direction: Direction) -> (r: Entity)
        ensures
            r == (Entity {
                position,
                movement: Movement::Static(
                    StaticMovement {
                        timer: 0,
                        direction,
                        cooldown: BULLET_MOVEMENT_COOLDOWN_MS,
                    },
                ),
                kind: EntityKind::Bullet,
            }),
            r.wf(),
    {
        Entity {
            position,
            movement: Movement::Static(StaticMovement::new(direction, BULLET_MOVEMENT_COOLDOWN_MS)),
            kind: EntityKind::Bullet,
        }
    }

    /// An immobile trap.
    pub fn new_trap(position: Position) -> (r: Entity)
        ensures
            r == (Entity { position, movement: Movement::Immobile, kind: EntityKind::Trap }),
            r.wf(),
    {
        Entity { position, movement: Movement::Immobile, kind: EntityKind::Trap }
    }

    /// An enemy that roams in randomly re-sampled directions.
    pub fn new_enemy(position: Position, direction: Direction) -> (r: Entity)
        ensures
            r == (Entity {
                position,
                movement: Movement::Random(
                    RandomMovement {
                        timer: 0,
                        direction,
                        cooldown: ENEMY_MOVEMENT_COOLDOWN_MS,
                    },
                ),
                kind: EntityKind::Enemy,
            }),
            r.wf(),
    {
        Entity {
            position,
            movement: Movement::Random(RandomMovement::new(direction, ENEMY_MOVEMENT_COOLDOWN_MS)),
            kind: EntityKind::Enemy,
        }
    }

    /// One tick with the random mover's sampled direction supplied by the
    /// caller. Deterministic in its inputs.
    pub fn update_with(&mut self, elapsed_ms: i64, sampled: Direction)
        requires
            old(self).wf(),
            0 <= elapsed_ms <= MAX_TICK_MS,
        ensures
            final(self).wf(),
            *final(self) == spec_entity_updated(*old(self), elapsed_ms as int, sampled),
    {
        match &mut self.movement {
            Movement::Immobile => {},
            Movement::Static(m) => {
                let stepped = m.apply(elapsed_ms);
                if stepped.is_some() {
                    self.position = self.position.step(m.direction);
                }
            },
            Movement::Random(m) => {
                let fired = {
                    let (t, fired) = tick_timer(m.timer, elapsed_ms, m.cooldown);
                    m.timer = t;
                    fired
                };
                if fired {
                    m.direction = sampled;
                    self.position = self.position.step(sampled);
                }
            },
        }
    }

    /// One tick: if a movement strategy is present and fires, the entity
    /// steps one cell (a random mover first re-samples its direction). No
    /// bounds checking happens here; what "outside" means is the session's
    /// responsibility and differs per entity kind.
    pub fn update(&mut self, elapsed_ms: i64)
        requires
            old(self).wf(),
            0 <= elapsed_ms <= MAX_TICK_MS,
        ensures
            final(self).wf(),
            exists|sampled: Direction|
                *final(self) == #[trigger] spec_entity_updated(
                    *old(self),
                    elapsed_ms as int,
                    sampled,
                ),
    {
        let sampled = random_direction();
        self.update_with(elapsed_ms, sampled);
    }
}

/// Whether the last position of a body also occurs somewhere earlier in it.
pub open spec fn seq_self_collision(body: Seq<Position>) -> bool {
    exists|i: int| 0 <= i < body.len() - 1 && body[i] == body.last()
}

/// The player's snake: an ordered body (tail first, head last), a buffered
/// direction change, a move countdown, and an ammo counter.
#[derive(Debug)]
pub struct Snake {
    pub positions: Vec<Position>,
    pub next_direction: Direction,
    pub direction: Direction,
    pub move_timer: i64,
    pub ammo: u32,
    pub max_ammo: u32,
}

impl Snake {
    /// The body is never empty, ammo never exceeds capacity, and the move
    /// countdown stays within the shared timer range.
    pub open spec fn wf(self) -> bool {
        &&& self.positions@.len() >= 1
        &&& self.ammo <= self.max_ammo
        &&& MIN_TIMER_MS <= self.move_timer <= MAX_COOLDOWN_MS
    }

    /// The leading segment: the last element of the body.
    pub open spec fn spec_head(self) -> Position {
        self.positions@.last()
    }

    /// Whether the head also occurs somewhere in the rest of the body.
    pub open spec fn spec_self_collision(self) -> bool {
        seq_self_collision(self.positions@)
    }

    /// A single-segment snake facing right, with no ammo yet.
    pub fn new(position: Position, max_ammo: u32) -> (r: Snake)
        ensures
            r.positions@ == seq![position],
            r.next_direction == Direction::Right,
            r.direction == Direction::Right,
            r.move_timer == 0,
            r.ammo == 0,
            r.max_ammo == max_ammo,
            r.wf(),
    {
        let mut positions: Vec<Position> = Vec::new();
        positions.push(position);
        proof {
            assert(positions@ =~= seq![position]);
        }
        Snake {
            positions,
            next_direction: Direction::Right,
            direction: Direction::Right,
            move_timer: 0,
            ammo: 0,
            max_ammo,
        }
    }

    /// The head position. The body being non-empty is the one invariant the
    /// update algorithm guarantees at all times.
    pub fn head(&self) -> (r: Position)
        requires
            self.positions@.len() >= 1,
        ensures
            r == self.spec_head(),
    {
        self.positions[self.positions.len() - 1]
    }

    /// True iff the head position occurs anywhere in the body before the
    /// head itself. Meant to be checked immediately after a move appended a
    /// new head, before any tail trim.
    pub fn self_collision(&self) -> (r: bool)
        requires
            self.positions@.len() >= 1,
        ensures
            r == self.spec_self_collision(),
    {
        let head = self.head();
        let n: usize = self.positions.len() - 1;
        let mut i: usize = 0;
        while i < n
            invariant
                n == self.positions@.len() - 1,
                0 <= i <= n,
                head == self.spec_head(),
                forall|j: int| 0 <= j < i ==> self.positions@[j] != head,
            decreases n - i,
        {
            if self.positions[i] == head {
                return true;
            }
            i += 1;
        }
        false
    }

    /// Buffers a pending turn, applied at the next movement tick; a request
    /// to reverse straight into the body is silently dropped.
    pub fn try_set_direction(&mut self, direction: Direction)
        ensures
            final(self).positions == old(self).positions,
            final(self).direction == old(self).direction,
            final(self).move_timer == old(self).move_timer,
            final(self).ammo == old(self).ammo,
            final(self).max_ammo == old(self).max_ammo,
            direction == old(self).direction.opposite() ==> final(self).next_direction == old(
                self,
            ).next_direction,
            direction != old(self).direction.opposite() ==> final(self).next_direction
                == direction,
    {
        if self.direction.opposite() != direction {
            self.next_direction = direction;
        }
    }

    /// One tick of the move countdown. When it fires, the buffered turn is
    /// committed and the new head appended; the caller trims the tail
    /// separately when no food was eaten, which is what keeps a non-eating
    /// snake at constant length. Returns true iff the snake moved.
    pub fn update(&mut self, elapsed_ms: i64) -> (moved: bool)
        requires
            old(self).wf(),
            0 <= elapsed_ms <= MAX_TICK_MS,
        ensures
            final(self).wf(),
            moved == timer_fires(old(self).move_timer as int, elapsed_ms as int),
            final(self).move_timer == timer_after_tick(
                old(self).move_timer as int,
                elapsed_ms as int,
                SNAKE_MOVEMENT_COOLDOWN_MS as int,
            ),
            final(self).next_direction == old(self).next_direction,
            final(self).ammo == old(self).ammo,
            final(self).max_ammo == old(self).max_ammo,
            !moved ==> final(self).direction == old(self).direction && final(self).positions
                == old(self).positions,
            moved ==> final(self).direction == old(self).next_direction,
            moved ==> final(self).positions@ == old(self).positions@.push(
                spec_step(old(self).spec_head(), old(self).next_direction),
            ),
    {
        let (t, fired) = tick_timer(self.move_timer, elapsed_ms, SNAKE_MOVEMENT_COOLDOWN_MS);
        self.move_timer = t;
        if fired {
            self.direction = self.next_direction;
            let new_head = self.position_one_step_forward();
            self.positions.push(new_head);
            true
        } else {
            false
        }
    }

    fn position_one_step_forward(&self) -> (r: Position)
        requires
            self.positions@.len() >= 1,
        ensures
            r == spec_step(self.spec_head(), self.direction),
    {
        let head = self.head();
        head.step(self.direction)
    }

    /// With ammo in hand, spends one round and names the cell one step ahead
    /// of the head plus the current facing, for the caller to spawn a
    /// bullet; with none, yields nothing (a user-facing notice, not an
    /// error).
    pub fn try_shoot(&mut self) -> (r: Option<(Position, Direction)>)
        requires
            old(self).wf(),
        ensures
            final(self).wf(),
            final(self).positions == old(self).positions,
            final(self).direction == old(self).direction,
            final(self).next_direction == old(self).next_direction,
            final(self).move_timer == old(self).move_timer,
            final(self).max_ammo == old(self).max_ammo,
            old(self).ammo == 0 ==> r is None && final(self).ammo == 0,
            old(self).ammo > 0 ==> final(self).ammo == old(self).ammo - 1 && r == Some(
                (spec_step(old(self).spec_head(), old(self).direction), old(self).direction),
            ),
    {
        if self.ammo > 0 {
            self.ammo = self.ammo - 1;
            Some((self.position_one_step_forward(), self.direction))
        } else {
            None
        }
    }

    /// Adds ammo, saturating at capacity: the counter never exceeds
    /// `max_ammo`, however many gains are applied.
    pub fn gain_ammo(&mut self, amount: u32)
        requires
            old(self).wf(),
        ensures
            final(self).wf(),
            final(self).positions == old(self).positions,
            final(self).direction == old(self).direction,
            final(self).next_direction == old(self).next_direction,
            final(self).move_timer == old(self).move_timer,
            final(self).max_ammo == old(self).max_ammo,
            final(self).ammo == (if old(self).ammo + amount > old(self).max_ammo {
                old(self).max_ammo as int
            } else {
                old(self).ammo + amount
            }),
            final(self).ammo <= final(self).max_ammo,
    {
        let room: u32 = self.max_ammo - self.ammo;
        if amount >= room {
            self.ammo = self.max_ammo;
        } else {
            self.ammo = self.ammo + amount;
        }
    }
}

} // verus!
