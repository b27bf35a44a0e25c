use snake_sim::tick;
use snake_sim::Field;
use snake_sim::Food;
use snake_sim::Pos;
use rand::SeedableRng;
use snake_sim::SimRng;
use snake_sim::Snake;
use snake_sim::Strategy;

/// A reproducible random capability for the tests.
fn seeded(seed: u64) -> SimRng {
    SimRng { inner: rand::rngs::StdRng::seed_from_u64(seed) }
}

fn field(width: u32, height: u32, food: Pos) -> Field {
    Field { width, height, kind: '.', food: Food { kind: '*', position: food } }
}

#[test]
fn angle_tick_moves_right_when_columns_differ() {
    let mut s = Snake::new('s');
    let mut f = field(30, 20, Pos { x: 10, y: 15 });
    let mut rng = seeded(5);
    let r = tick(&mut s, &mut f, Strategy::AngleHeuristic, &mut rng);
    assert!(r.alive);
    assert!(!r.ate_food);
    assert_eq!(r.final_body_length, None);
    assert_eq!(s.body[0], Pos { x: 5, y: 0 });
    assert_eq!(s.body.len(), 5);
}

#[test]
fn greedy_tick_eats_adjacent_food() {
    // Food directly below the head: the greedy walk steps onto it.
    let mut s = Snake::new('s');
    let mut f = field(30, 20, Pos { x: 4, y: 1 });
    let mut rng = seeded(5);
    let r = tick(&mut s, &mut f, Strategy::GreedyDistance, &mut rng);
    assert!(r.alive);
    assert!(r.ate_food);
    assert_eq!(r.final_body_length, None);
    assert_eq!(s.body.len(), 6);
    assert_eq!(s.body[0], Pos { x: 4, y: 1 });
}

#[test]
fn random_tick_keeps_a_fresh_snake_alive() {
    let mut s = Snake::new('s');
    let mut f = field(30, 20, Pos { x: 10, y: 15 });
    let mut rng = seeded(5);
    let r = tick(&mut s, &mut f, Strategy::RandomWalk, &mut rng);
    assert!(r.alive);
    assert_eq!(r.final_body_length, None);
    assert_eq!(s.body.len(), 5);
}

#[test]
fn boxed_in_tick_reports_death_without_moving() {
    let mut s = Snake {
        kind: 's',
        body: vec![
            Pos { x: 1, y: 1 },
            Pos { x: 1, y: 0 },
            Pos { x: 1, y: 2 },
            Pos { x: 0, y: 1 },
            Pos { x: 2, y: 1 },
            Pos { x: 0, y: 0 },
        ],
    };
    let before = s.body.clone();
    let mut f = field(3, 3, Pos { x: 2, y: 2 });
    let mut rng = seeded(5);
    let r = tick(&mut s, &mut f, Strategy::RandomWalk, &mut rng);
    assert!(!r.alive);
    assert!(!r.ate_food);
    assert_eq!(r.final_body_length, Some(6));
    assert_eq!(s.body, before);
    assert_eq!(f.food.position, Pos { x: 2, y: 2 });
}

#[test]
fn angle_tick_can_walk_into_death() {
    // Head and food share a column, so the heuristic goes down, onto a
    // body segment that stays put: the tick reports the death and the
    // final length for the age report (length minus the initial five).
    let mut s = Snake {
        kind: 's',
        body: vec![
            Pos { x: 1, y: 1 },
            Pos { x: 1, y: 2 },
            Pos { x: 2, y: 1 },
            Pos { x: 2, y: 2 },
            Pos { x: 0, y: 0 },
        ],
    };
    let mut f = field(3, 5, Pos { x: 1, y: 0 });
    let mut rng = seeded(5);
    let r = tick(&mut s, &mut f, Strategy::AngleHeuristic, &mut rng);
    assert!(!r.alive);
    assert!(!r.ate_food);
    assert_eq!(r.final_body_length, Some(5));
    assert_eq!(r.final_body_length.unwrap() - 5, 0);
    assert_eq!(s.body[0], Pos { x: 1, y: 2 });
}

#[test]
fn greedy_ticks_reach_the_food_eventually() {
    // Drive the simulation until the food at (6, 2) is eaten.
    let mut s = Snake::new('s');
    let mut f = field(30, 20, Pos { x: 6, y: 2 });
    let mut rng = seeded(5);
    let mut ate = false;
    for _ in 0..10 {
        let r = tick(&mut s, &mut f, Strategy::GreedyDistance, &mut rng);
        assert!(r.alive);
        if r.ate_food {
            ate = true;
            break;
        }
    }
    assert!(ate);
    assert_eq!(s.body.len(), 6);
}

#[test]
fn ticks_replay_from_the_same_seed() {
    // Two runs from identical state and seed take identical paths.
    let mut s1 = Snake::new('s');
    let mut f1 = field(30, 20, Pos { x: 10, y: 15 });
    let mut s2 = Snake::new('s');
    let mut f2 = field(30, 20, Pos { x: 10, y: 15 });
    let mut a = seeded(1234);
    let mut b = seeded(1234);
    for _ in 0..40 {
        let r1 = tick(&mut s1, &mut f1, Strategy::RandomWalk, &mut a);
        let r2 = tick(&mut s2, &mut f2, Strategy::RandomWalk, &mut b);
        assert_eq!(s1.body, s2.body);
        assert_eq!(f1.food.position, f2.food.position);
        assert_eq!(r1.alive, r2.alive);
        if !r1.alive {
            break;
        }
    }
}
