//! The three move-selection strategies. The random walk and the greedy
//! walk look one step ahead on deep copies of the state and never pick a
//! move that kills the snake at once; when the snake is boxed in by
//! herself they return `None` (an explicit "no safe move" outcome, for
//! the orchestrator to treat as an imminent-death tick). The angle
//! heuristic is deterministic and does no look-ahead at all.

use vstd::prelude::*;
use crate::grid::Direction;
use crate::grid::Field;
use crate::grid::Food;
use crate::grid::Pos;
use crate::grid::spec_toroidal_dist_sq;
use crate::grid::toroidal_distance_sq;
use crate::snake::Snake;
use crate::snake::step_rel;
use crate::rng::SimRng;

verus! {

/// What the angle heuristic picks: `Down` when the head shares the
/// food's column, `Right` otherwise.
pub open spec fn spec_decide_l(head: Pos, food: Pos) -> Direction {
    if head.x == food.x {
        Direction::Down
    } else {
        Direction::Right
    }
}

/// A direction is one of the four variants.
pub proof fn lemma_direction_cases(d: Direction)
    ensures
        d == Direction::Up || d == Direction::Down || d == Direction::Left
            || d == Direction::Right,
{
    match d {
        Direction::Up => {},
        Direction::Down => {},
        Direction::Left => {},
        Direction::Right => {},
    }
}

impl Snake {
    /// What the greedy strategy minimizes for a candidate `dir`: the
    /// squared toroidal distance from the hypothetical new head to the
    /// food as it stands now (not to a hypothetical respawned food).
    pub open spec fn greedy_cost(self, field: Field, dir: Direction) -> int {
        spec_toroidal_dist_sq(self.spec_new_head(field, dir), field.food.position)
    }

    /// The state one hypothetical step ahead: deep, independent copies of
    /// snake and field, stepped once in `dir`. Mutating them never
    /// affects the real state (the random capability is shared: a
    /// hypothetical step that eats draws from it like a real one).
    fn future_after_step(&self, field: &Field, dir: Direction, rng: &mut SimRng) -> (r: (
        Snake,
        Field,
    ))
        requires
            self.wf(field.width as int, field.height as int),
            field.wf(),
        ensures
            step_rel(*self, *field, r.0, r.1, dir),
            r.0.body@ == self.future_body(*field, dir),
    {
        let mut future_snake = Snake { kind: self.kind, body: self.clone_body() };
        let mut future_field = Field {
            width: field.width,
            height: field.height,
            kind: field.kind,
            food: Food { kind: field.food.kind, position: field.food.position },
        };
        future_snake.step(&mut future_field, &dir, rng);
        (future_snake, future_field)
    }

    /// Whether a step in `dir` leaves the snake alive, decided by
    /// one-step look-ahead on copies.
    fn check_survives(&self, field: &Field, dir: Direction, rng: &mut SimRng) -> (r: bool)
        requires
            self.wf(field.width as int, field.height as int),
            field.wf(),
        ensures
            r == self.survives(*field, dir),
    {
        let (future_snake, _future_field) = self.future_after_step(field, dir, rng);
        !future_snake.is_dead()
    }

    /// Folds one candidate direction into the running minimum: keeps
    /// `best` when `dir` does not survive or does not strictly improve on
    /// it, so that the earliest candidate wins ties.
    fn greedy_probe(
        &self,
        field: &Field,
        dir: Direction,
        best: Option<(Direction, u128)>,
        rng: &mut SimRng,
    ) -> (r: Option<(Direction, u128)>)
        requires
            self.wf(field.width as int, field.height as int),
            field.wf(),
        ensures
            !self.survives(*field, dir) ==> r == best,
            self.survives(*field, dir) ==> match best {
                None => r matches Some(p) && p.0 == dir && p.1 as int == self.greedy_cost(
                    *field,
                    dir,
                ),
                Some(b) => if self.greedy_cost(*field, dir) < b.1 as int {
                    r matches Some(p) && p.0 == dir && p.1 as int == self.greedy_cost(*field, dir)
                } else {
                    r == best
                },
            },
    {
        let (future_snake, _future_field) = self.future_after_step(field, dir, rng);
        if future_snake.is_dead() {
            return best;
        }
        let head = future_snake.body[0];
        proof {
            assert(head == self.spec_new_head(*field, dir));
        }
        let dist = toroidal_distance_sq(head, field.food.position);
        match best {
            None => Some((dir, dist)),
            Some(b) => if dist < b.1 {
                Some((dir, dist))
            } else {
                Some(b)
            },
        }
    }

    /// The greedy strategy: among the candidate directions that survive
    /// one step of look-ahead, the one whose hypothetical head lies
    /// closest (in squared toroidal distance) to the current food, ties
    /// broken by the canonical order `Up, Down, Left, Right`; `None`
    /// exactly when no direction survives.
    pub fn decide_greedy_distance(&self, field: &Field, rng: &mut SimRng) -> (r: Option<Direction>)
        requires
            self.wf(field.width as int, field.height as int),
            field.wf(),
        ensures
            (r is Some) <==> exists|d: Direction| self.survives(*field, d),
            r matches Some(d) ==> {
                &&& self.survives(*field, d)
                &&& forall|d2: Direction|
                    self.survives(*field, d2) ==> self.greedy_cost(*field, d) <= self.greedy_cost(
                        *field,
                        d2,
                    )
                &&& forall|d2: Direction|
                    self.survives(*field, d2) && d2.rank() < d.rank() ==> self.greedy_cost(
                        *field,
                        d,
                    ) < self.greedy_cost(*field, d2)
            },
    {
        let mut best: Option<(Direction, u128)> = None;
        best = self.greedy_probe(field, Direction::Up, best, rng);
        best = self.greedy_probe(field, Direction::Down, best, rng);
        best = self.greedy_probe(field, Direction::Left, best, rng);
        best = self.greedy_probe(field, Direction::Right, best, rng);
        proof {
            if exists|d: Direction| self.survives(*field, d) {
                let d = choose|d: Direction| self.survives(*field, d);
                lemma_direction_cases(d);
            }
            if best is Some {
                let p = best->0;
                assert forall|d2: Direction| self.survives(*field, d2) implies self.greedy_cost(
                    *field,
                    p.0,
                ) <= self.greedy_cost(*field, d2) by {
                    lemma_direction_cases(d2);
                }
                assert forall|d2: Direction|
                    self.survives(*field, d2) && d2.rank() < p.0.rank() implies self.greedy_cost(
                    *field,
                    p.0,
                ) < self.greedy_cost(*field, d2) by {
                    lemma_direction_cases(d2);
                }
            }
        }
        match best {
            Some(p) => Some(p.0),
            None => None,
        }
    }

    /// The random walk: a uniformly chosen direction among those that
    /// survive one step of look-ahead; `None` exactly when no direction
    /// survives.
    pub fn decide_random(&self, field: &Field, rng: &mut SimRng) -> (r: Option<Direction>)
        requires
            self.wf(field.width as int, field.height as int),
            field.wf(),
        ensures
            (r is Some) <==> exists|d: Direction| self.survives(*field, d),
            r matches Some(d) ==> self.survives(*field, d),
    {
        let mut ps: Vec<Direction> = Vec::new();
        if self.check_survives(field, Direction::Up, rng) {
            ps.push(Direction::Up);
        }
        if self.check_survives(field, Direction::Down, rng) {
            ps.push(Direction::Down);
        }
        if self.check_survives(field, Direction::Left, rng) {
            ps.push(Direction::Left);
        }
        if self.check_survives(field, Direction::Right, rng) {
            ps.push(Direction::Right);
        }
        proof {
            assert forall|i: int| 0 <= i < ps@.len() implies self.survives(
                *field,
                #[trigger] ps@[i],
            ) by {}
            if exists|d: Direction| self.survives(*field, d) {
                let d = choose|d: Direction| self.survives(*field, d);
                lemma_direction_cases(d);
                assert(ps@.len() > 0);
            }
        }
        if ps.len() == 0 {
            None
        } else {
            let i = rng.below(ps.len() as u32);
            Some(ps[i as usize])
        }
    }

    /// The angle heuristic: `Down` when the head is in the food's column,
    /// `Right` otherwise. Deterministic, no look-ahead, no
    /// death-avoidance; it can walk into a collision by design.
    pub fn decide_l(&self, field: &Field) -> (r: Direction)
        requires
            self.body@.len() >= 1,
        ensures
            r == spec_decide_l(self.body@[0], field.food.position),
    {
        if self.body[0].x == field.food.position.x {
            return Direction::Down;
        } else {
            return Direction::Right;
        }
    }
}

/// The angle heuristic reads one bit of the state: whether head and food
/// share a column. Two states that agree on that bit get the same
/// direction, whatever else differs and whatever happened before.
pub proof fn lemma_decide_l_deterministic(h1: Pos, f1: Pos, h2: Pos, f2: Pos)
    requires
        (h1.x == f1.x) <==> (h2.x == f2.x),
    ensures
        spec_decide_l(h1, f1) == spec_decide_l(h2, f2),
{
}

} // verus!
