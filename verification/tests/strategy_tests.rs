use snake_sim::Direction;
use snake_sim::Field;
use snake_sim::Food;
use snake_sim::Pos;
use rand::SeedableRng;
use snake_sim::SimRng;
use snake_sim::Snake;

/// A reproducible random capability for the tests.
fn seeded(seed: u64) -> SimRng {
    SimRng { inner: rand::rngs::StdRng::seed_from_u64(seed) }
}

fn field(width: u32, height: u32, food: Pos) -> Field {
    Field { width, height, kind: '.', food: Food { kind: '*', position: food } }
}

/// A snake boxed in at (1, 1) on a 3 by 3 grid: every neighbour of the
/// head is held by a segment that stays in place for one more step.
fn boxed_in() -> (Snake, Field) {
    let s = Snake {
        kind: 's',
        body: vec![
            Pos { x: 1, y: 1 },
            Pos { x: 1, y: 0 },
            Pos { x: 1, y: 2 },
            Pos { x: 0, y: 1 },
            Pos { x: 2, y: 1 },
            Pos { x: 0, y: 0 },
        ],
    };
    let f = field(3, 3, Pos { x: 2, y: 2 });
    (s, f)
}

#[test]
fn greedy_picks_closest_surviving_direction() {
    // Head (4,0), food (6,0): right lands at distance 0, down at 1, up far,
    // left dies on the body.
    let s = Snake::new('s');
    let f = field(30, 20, Pos { x: 6, y: 0 });
    let mut rng = seeded(3);
    assert_eq!(s.decide_greedy_distance(&f, &mut rng), Some(Direction::Right));
}

#[test]
fn greedy_breaks_ties_in_canonical_order() {
    // Head (4,0), food (4,1): down lands on the food (distance 0) and
    // right lands diagonally beside it (also distance 0 under the
    // reflected metric); the first minimum in Up, Down, Left, Right
    // order wins, so down is chosen.
    let s = Snake::new('s');
    let f = field(30, 20, Pos { x: 4, y: 1 });
    let mut rng = seeded(3);
    assert_eq!(s.decide_greedy_distance(&f, &mut rng), Some(Direction::Down));
}

#[test]
fn greedy_never_picks_a_dying_move() {
    // Food on the second body segment: moving left onto it would grow
    // into a collision, so the greedy walk goes down instead.
    let s = Snake::new('s');
    let f = field(30, 20, Pos { x: 3, y: 0 });
    let mut rng = seeded(3);
    let d = s.decide_greedy_distance(&f, &mut rng);
    assert_ne!(d, Some(Direction::Left));
    assert_eq!(d, Some(Direction::Down));
}

#[test]
fn greedy_reports_no_safe_move_when_boxed_in() {
    let (s, f) = boxed_in();
    let mut rng = seeded(3);
    assert_eq!(s.decide_greedy_distance(&f, &mut rng), None);
}

#[test]
fn random_walk_reports_no_safe_move_when_boxed_in() {
    let (s, f) = boxed_in();
    let mut rng = seeded(3);
    assert_eq!(s.decide_random(&f, &mut rng), None);
}

#[test]
fn random_walk_takes_the_only_survivor() {
    // As boxed_in, but the cell right of the head is free.
    let s = Snake {
        kind: 's',
        body: vec![
            Pos { x: 1, y: 1 },
            Pos { x: 1, y: 0 },
            Pos { x: 1, y: 2 },
            Pos { x: 0, y: 1 },
            Pos { x: 2, y: 0 },
            Pos { x: 2, y: 2 },
        ],
    };
    let f = field(3, 3, Pos { x: 0, y: 2 });
    let mut rng = seeded(3);
    for _ in 0..20 {
        assert_eq!(s.decide_random(&f, &mut rng), Some(Direction::Right));
    }
}

#[test]
fn random_walk_picks_a_survivable_direction() {
    let mut s = Snake::new('s');
    let mut f = field(30, 20, Pos { x: 10, y: 15 });
    let mut rng = seeded(3);
    let d = s.decide_random(&f, &mut rng).expect("a fresh snake has safe moves");
    s.step(&mut f, &d, &mut rng);
    assert!(!s.is_dead());
}

#[test]
fn angle_heuristic_same_column_goes_down() {
    let s = Snake::new('s');
    let f = field(30, 20, Pos { x: 4, y: 12 });
    assert_eq!(s.decide_l(&f), Direction::Down);
}

#[test]
fn angle_heuristic_other_column_goes_right() {
    let s = Snake::new('s');
    let f = field(30, 20, Pos { x: 10, y: 15 });
    assert_eq!(s.decide_l(&f), Direction::Right);
}

#[test]
fn angle_heuristic_is_deterministic() {
    // Same inputs, same output, on repeated calls.
    let s = Snake::new('s');
    let f = field(30, 20, Pos { x: 7, y: 3 });
    let first = s.decide_l(&f);
    for _ in 0..10 {
        assert_eq!(s.decide_l(&f), first);
    }
}

#[test]
fn random_walk_replays_from_the_same_seed() {
    let s = Snake::new('s');
    let f = field(30, 20, Pos { x: 10, y: 15 });
    let mut a = seeded(99);
    let mut b = seeded(99);
    for _ in 0..25 {
        assert_eq!(s.decide_random(&f, &mut a), s.decide_random(&f, &mut b));
    }
}
