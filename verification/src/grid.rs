//! The toroidal coordinate space: positions, directions, the field with
//! its food, wrap-around movement, and the two distance metrics.

use vstd::prelude::*;
use vstd::arithmetic::div_mod::lemma_mod_multiples_vanish;
use vstd::arithmetic::div_mod::lemma_small_mod;
use vstd::arithmetic::mul::lemma_mul_upper_bound;
use crate::rng::SimRng;

verus! {

/// A cell of the grid. On a well-formed field every position carried by
/// the simulation satisfies `x < width` and `y < height`.
#[derive(Copy, Clone, PartialEq, Eq, Structural, Debug)]
pub struct Pos {
    pub x: u32,
    pub y: u32,
}

/// The four moves, in their canonical order `Up < Down < Left < Right`
/// (the order used for tie-breaking by the greedy strategy).
#[derive(Copy, Clone, PartialEq, Eq, Structural, Debug)]
pub enum Direction {
    Up,
    Down,
    Left,
    Right,
}

/// A single piece of food: its position and the glyph a renderer shows.
pub struct Food {
    pub kind: char,
    pub position: Pos,
}

/// The toroidal field: dimensions, the background glyph for rendering,
/// and the current food.
pub struct Field {
    pub width: u32,
    pub height: u32,
    pub kind: char,
    pub food: Food,
}

impl Pos {
    /// Both coordinates lie inside a `width` by `height` grid.
    pub open spec fn in_bounds(self, width: int, height: int) -> bool {
        self.x < width && self.y < height
    }
}

impl Direction {
    /// Rank in the canonical order `Up < Down < Left < Right`.
    pub open spec fn rank(self) -> int {
        match self {
            Direction::Up => 0,
            Direction::Down => 1,
            Direction::Left => 2,
            Direction::Right => 3,
        }
    }
}

/// `v + 1` modulo `dim`.
pub open spec fn inc_wrap(v: u32, dim: u32) -> int {
    (v + 1) % (dim as int)
}

/// `v - 1` modulo `dim`, computed without underflow as `(v + dim - 1) % dim`.
pub open spec fn dec_wrap(v: u32, dim: u32) -> int {
    (v + dim - 1) % (dim as int)
}

impl Field {
    /// Well-formed field: positive dimensions and in-bounds food.
    pub open spec fn wf(self) -> bool {
        &&& self.width >= 1
        &&& self.height >= 1
        &&& self.food.position.in_bounds(self.width as int, self.height as int)
    }

    /// Where one move in `dir` from `p` lands: adds or subtracts one on
    /// the relevant axis, modulo the corresponding dimension. `Up`
    /// decreases `y`, `Down` increases it.
    pub open spec fn spec_wrap_move(self, p: Pos, dir: Direction) -> Pos {
        match dir {
            Direction::Up => Pos { x: p.x, y: dec_wrap(p.y, self.height) as u32 },
            Direction::Down => Pos { x: p.x, y: inc_wrap(p.y, self.height) as u32 },
            Direction::Left => Pos { x: dec_wrap(p.x, self.width) as u32, y: p.y },
            Direction::Right => Pos { x: inc_wrap(p.x, self.width) as u32, y: p.y },
        }
    }

    /// A position drawn uniformly at random inside the field, from the
    /// injected capability. Only the bounds are stated; cells held by a
    /// snake's body are not excluded from the draw.
    pub fn get_random_pos(&self, rng: &mut SimRng) -> (r: Pos)
        requires
            self.width >= 1,
            self.height >= 1,
        ensures
            r.in_bounds(self.width as int, self.height as int),
    {
        let x: u32 = rng.below(self.width);
        let y: u32 = rng.below(self.height);
        Pos { x, y }
    }

    /// One step of wrap-around movement. The result is always in bounds:
    /// the grid never clamps or rejects, it wraps.
    pub fn wrap_move(&self, p: Pos, dir: Direction) -> (r: Pos)
        requires
            self.wf(),
            p.in_bounds(self.width as int, self.height as int),
        ensures
            r == self.spec_wrap_move(p, dir),
            r.in_bounds(self.width as int, self.height as int),
    {
        proof {
            lemma_inc_wrap(p.x, self.width);
            lemma_inc_wrap(p.y, self.height);
            lemma_dec_wrap(p.x, self.width);
            lemma_dec_wrap(p.y, self.height);
        }
        match dir {
            Direction::Up => Pos {
                x: p.x,
                y: if p.y == 0 { self.height - 1 } else { p.y - 1 },
            },
            Direction::Down => Pos {
                x: p.x,
                y: if p.y + 1 == self.height { 0 } else { p.y + 1 },
            },
            Direction::Left => Pos {
                x: if p.x == 0 { self.width - 1 } else { p.x - 1 },
                y: p.y,
            },
            Direction::Right => Pos {
                x: if p.x + 1 == self.width { 0 } else { p.x + 1 },
                y: p.y,
            },
        }
    }
}

/// For an in-bounds coordinate, incrementing modulo the dimension is the
/// plain successor, except at the far edge, where it wraps to zero.
pub proof fn lemma_inc_wrap(v: u32, dim: u32)
    requires
        1 <= dim,
        v < dim,
    ensures
        inc_wrap(v, dim) == if v + 1 == dim { 0int } else { v + 1 },
        0 <= inc_wrap(v, dim) < dim,
{
    if v + 1 == dim {
        lemma_mod_multiples_vanish(1, 0, dim as int);
        lemma_small_mod(0, dim as nat);
    } else {
        lemma_small_mod((v + 1) as nat, dim as nat);
    }
}

/// For an in-bounds coordinate, decrementing modulo the dimension is the
/// plain predecessor, except at zero, where it wraps to the far edge.
pub proof fn lemma_dec_wrap(v: u32, dim: u32)
    requires
        1 <= dim,
        v < dim,
    ensures
        dec_wrap(v, dim) == if v == 0 { dim - 1 } else { v - 1 },
        0 <= dec_wrap(v, dim) < dim,
{
    if v == 0 {
        lemma_small_mod((dim - 1) as nat, dim as nat);
    } else {
        lemma_mod_multiples_vanish(1, v - 1, dim as int);
        lemma_small_mod((v - 1) as nat, dim as nat);
    }
}

/// Moving off any edge of a well-formed field lands on the opposite edge,
/// and moving inward never wraps: `Right` from `x == width - 1` lands at
/// `x == 0`, `Left` from `x == 0` lands at `x == width - 1`, `Up` from
/// `y == 0` lands at `y == height - 1`, and `Down` from `y == height - 1`
/// lands at `y == 0`.
pub proof fn lemma_wrap_edges(field: Field, x: u32, y: u32)
    requires
        field.wf(),
        x < field.width,
        y < field.height,
    ensures
        field.spec_wrap_move(Pos { x: (field.width - 1) as u32, y }, Direction::Right)
            == (Pos { x: 0u32, y }),
        field.spec_wrap_move(Pos { x: 0u32, y }, Direction::Left)
            == (Pos { x: (field.width - 1) as u32, y }),
        field.spec_wrap_move(Pos { x, y: 0u32 }, Direction::Up)
            == (Pos { x, y: (field.height - 1) as u32 }),
        field.spec_wrap_move(Pos { x, y: (field.height - 1) as u32 }, Direction::Down)
            == (Pos { x, y: 0u32 }),
{
    lemma_inc_wrap((field.width - 1) as u32, field.width);
    lemma_dec_wrap(0u32, field.width);
    lemma_dec_wrap(0u32, field.height);
    lemma_inc_wrap((field.height - 1) as u32, field.height);
}

/// Squared contribution of one axis to the toroidal metric. The mid-span
/// reflection threshold of one half is applied to the raw coordinate
/// difference, not to a difference normalized by the grid dimension, so
/// on an integer grid a difference of `d >= 1` contributes `(d - 1)^2`
/// and a difference of `0` contributes `0`. A metric normalized per axis
/// would behave differently; this form is kept because the greedy
/// strategy's selection is defined over it.
pub open spec fn axis_dist_sq(a: u32, b: u32) -> int {
    let d = if a >= b { a - b } else { b - a };
    if d == 0 { 0 } else { (d - 1) * (d - 1) }
}

/// Squared toroidal distance between two cells: the per-axis reflected
/// differences combined by the Euclidean norm, without the square root.
/// Taking the square root is monotone, so comparisons of this quantity
/// order candidate moves exactly as the rooted metric would.
pub open spec fn spec_toroidal_dist_sq(a: Pos, b: Pos) -> int {
    axis_dist_sq(a.x, b.x) + axis_dist_sq(a.y, b.y)
}

/// Squared straight-line distance, with no wrap awareness.
pub open spec fn spec_euclidean_dist_sq(a: Pos, b: Pos) -> int {
    let dx = if a.x >= b.x { a.x - b.x } else { b.x - a.x };
    let dy = if a.y >= b.y { a.y - b.y } else { b.y - a.y };
    dx * dx + dy * dy
}

/// Squared toroidal distance (see `spec_toroidal_dist_sq`).
pub fn toroidal_distance_sq(a: Pos, b: Pos) -> (r: u128)
    ensures
        r == spec_toroidal_dist_sq(a, b),
{
    let dx: u32 = if a.x >= b.x { a.x - b.x } else { b.x - a.x };
    let dy: u32 = if a.y >= b.y { a.y - b.y } else { b.y - a.y };
    proof {
        if dx >= 1 {
            lemma_mul_upper_bound(dx - 1, 0xFFFF_FFFF, dx - 1, 0xFFFF_FFFF);
        }
        if dy >= 1 {
            lemma_mul_upper_bound(dy - 1, 0xFFFF_FFFF, dy - 1, 0xFFFF_FFFF);
        }
    }
    let sx: u128 = if dx == 0 { 0 } else { ((dx - 1) as u128) * ((dx - 1) as u128) };
    let sy: u128 = if dy == 0 { 0 } else { ((dy - 1) as u128) * ((dy - 1) as u128) };
    sx + sy
}

/// Squared Euclidean distance (see `spec_euclidean_dist_sq`).
pub fn euclidean_distance_sq(a: Pos, b: Pos) -> (r: u128)
    ensures
        r == spec_euclidean_dist_sq(a, b),
{
    let dx: u32 = if a.x >= b.x { a.x - b.x } else { b.x - a.x };
    let dy: u32 = if a.y >= b.y { a.y - b.y } else { b.y - a.y };
    proof {
        lemma_mul_upper_bound(dx as int, 0xFFFF_FFFF, dx as int, 0xFFFF_FFFF);
        lemma_mul_upper_bound(dy as int, 0xFFFF_FFFF, dy as int, 0xFFFF_FFFF);
    }
    ((dx as u128) * (dx as u128)) + ((dy as u128) * (dy as u128))
}

} // verus!
