//! The tick orchestrator: one simulation step, from strategy decision to
//! movement to death and food reporting. The external loop around the
//! core calls `tick` once per frame and owns rendering and pacing.

use vstd::prelude::*;
use crate::grid::Direction;
use crate::grid::Field;
use crate::rng::SimRng;
use crate::snake::Snake;
use crate::snake::has_self_collision;
use crate::snake::step_rel;
use crate::strategy::lemma_direction_cases;
use crate::strategy::spec_decide_l;

verus! {

/// Which rule picks the next direction.
#[derive(Copy, Clone, PartialEq, Eq, Structural, Debug)]
pub enum Strategy {
    RandomWalk,
    GreedyDistance,
    AngleHeuristic,
}

/// What one tick reports to the caller: whether the snake is still
/// alive, whether it ate this tick, and, on death, the final body length
/// (the reported age is that length minus the initial five segments).
pub struct TickResult {
    pub alive: bool,
    pub ate_food: bool,
    pub final_body_length: Option<usize>,
}

/// The snake is boxed in by herself: no direction survives one step.
pub open spec fn no_safe_move(s: Snake, f: Field) -> bool {
    forall|d: Direction| !s.survives(f, d)
}

/// The direction a strategy feeds into the step, when it yields one:
/// a survivor for the random walk, the greedy minimum for the greedy
/// walk (both yield none exactly when no direction survives), and the
/// angle heuristic's pick always.
pub open spec fn decided_direction_ok(s: Snake, f: Field, strategy: Strategy, d: Direction) -> bool {
    match strategy {
        Strategy::RandomWalk => s.survives(f, d),
        Strategy::GreedyDistance => {
            &&& s.survives(f, d)
            &&& forall|d2: Direction|
                s.survives(f, d2) ==> s.greedy_cost(f, d) <= s.greedy_cost(f, d2)
            &&& forall|d2: Direction|
                s.survives(f, d2) && d2.rank() < d.rank() ==> s.greedy_cost(f, d) < s.greedy_cost(
                    f,
                    d2,
                )
        },
        Strategy::AngleHeuristic => d == spec_decide_l(s.body@[0], f.food.position),
    }
}

/// Advances the simulation by one tick: asks the strategy for a
/// direction, applies it, and reports death and food consumption.
///
/// When the random or greedy strategy finds no safe move, nothing is
/// stepped: the tick reports a dead outcome with the current length, and
/// snake and field are left untouched. The angle heuristic always moves.
/// Otherwise the chosen direction satisfies `decided_direction_ok`, the
/// step satisfies `step_rel`, the snake ate exactly when its new head
/// landed on the food, and it is reported alive exactly when the stepped
/// body has no self-collision.
pub fn tick(snake: &mut Snake, field: &mut Field, strategy: Strategy, rng: &mut SimRng) -> (r:
    TickResult)
    requires
        old(snake).wf(old(field).width as int, old(field).height as int),
        old(field).wf(),
    ensures
        final(snake).wf(final(field).width as int, final(field).height as int),
        final(field).wf(),
        ({
            let stepped = strategy == Strategy::AngleHeuristic || !no_safe_move(
                *old(snake),
                *old(field),
            );
            if stepped {
                &&& exists|d: Direction|
                    #[trigger] decided_direction_ok(*old(snake), *old(field), strategy, d)
                        && step_rel(*old(snake), *old(field), *final(snake), *final(field), d)
                &&& r.alive == !has_self_collision(final(snake).body@)
                &&& r.ate_food == (final(snake).body@.len() == old(snake).body@.len() + 1)
                &&& r.alive ==> r.final_body_length is None
                &&& !r.alive ==> r.final_body_length == Some(final(snake).body@.len() as usize)
            } else {
                &&& *final(snake) == *old(snake)
                &&& *final(field) == *old(field)
                &&& !r.alive
                &&& !r.ate_food
                &&& r.final_body_length == Some(old(snake).body@.len() as usize)
            }
        }),
{
    let dir_opt: Option<Direction> = match strategy {
        Strategy::RandomWalk => snake.decide_random(field, rng),
        Strategy::GreedyDistance => snake.decide_greedy_distance(field, rng),
        Strategy::AngleHeuristic => Some(snake.decide_l(field)),
    };
    match dir_opt {
        None => {
            proof {
                assert forall|d: Direction| !old(snake).survives(*old(field), d) by {
                    lemma_direction_cases(d);
                }
            }
            TickResult { alive: false, ate_food: false, final_body_length: Some(snake.body.len()) }
        },
        Some(d) => {
            let head = snake.body[0];
            let new_head = field.wrap_move(head, d);
            let ate = new_head == field.food.position;
            snake.step(field, &d, rng);
            proof {
                assert(decided_direction_ok(*old(snake), *old(field), strategy, d));
            }
            let dead = snake.is_dead();
            let len = snake.body.len();
            TickResult {
                alive: !dead,
                ate_food: ate,
                final_body_length: if dead {
                    Some(len)
                } else {
                    None
                },
            }
        },
    }
}

} // verus!
