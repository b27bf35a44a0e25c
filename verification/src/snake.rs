//! The agent: an ordered, non-empty body of grid cells, head first, that
//! advances one cell per tick, grows when it eats, and dies when two of
//! its segments occupy the same cell.

use vstd::prelude::*;
use crate::grid::Direction;
use crate::grid::Field;
use crate::grid::Food;
use crate::grid::Pos;
use crate::rng::SimRng;

verus! {

/// The snake: its body, head at index 0, and the glyph a renderer shows.
pub struct Snake {
    pub kind: char,
    pub body: Vec<Pos>,
}

/// Two distinct indices of the body hold the same cell. This is the
/// death condition; it is a property of the multiset of cells only
/// (see `lemma_self_collision_permutation`).
pub open spec fn has_self_collision(body: Seq<Pos>) -> bool {
    exists|i: int, j: int| 0 <= i < j < body.len() && body[i] == body[j]
}

/// The five cells of a fresh snake, laid out along the top row, head at
/// `x == 4`.
pub open spec fn initial_body() -> Seq<Pos> {
    seq![
        Pos { x: 4, y: 0 },
        Pos { x: 3, y: 0 },
        Pos { x: 2, y: 0 },
        Pos { x: 1, y: 0 },
        Pos { x: 0, y: 0 },
    ]
}

/// How one step in `dir` relates the post-step snake and field to the
/// pre-step ones. The new head is one wrapped move from the old head; if
/// it lands on the food the body grows by one at the front and the food
/// is respawned somewhere in bounds (the draw is random, so no more is
/// said of it); otherwise the new head is prepended, the tail cell is
/// dropped, and the field is untouched.
pub open spec fn step_rel(s0: Snake, f0: Field, s1: Snake, f1: Field, dir: Direction) -> bool {
    let nh = f0.spec_wrap_move(s0.body@[0], dir);
    &&& s1.kind == s0.kind
    &&& f1.width == f0.width
    &&& f1.height == f0.height
    &&& f1.kind == f0.kind
    &&& f1.food.kind == f0.food.kind
    &&& if nh == f0.food.position {
        &&& s1.body@ == seq![nh] + s0.body@
        &&& f1.food.position.in_bounds(f0.width as int, f0.height as int)
    } else {
        &&& s1.body@ == seq![nh] + s0.body@.drop_last()
        &&& f1.food == f0.food
    }
}

impl Snake {
    /// Non-empty body, every cell inside a `width` by `height` grid.
    pub open spec fn wf(self, width: int, height: int) -> bool {
        &&& self.body@.len() >= 1
        &&& forall|i: int|
            0 <= i < self.body@.len() ==> (#[trigger] self.body@[i]).in_bounds(width, height)
    }

    /// The cell one wrapped move from the head.
    pub open spec fn spec_new_head(self, field: Field, dir: Direction) -> Pos {
        field.spec_wrap_move(self.body@[0], dir)
    }

    /// The body as it would stand after one step in `dir` (the food decides
    /// whether the tail is kept).
    pub open spec fn future_body(self, field: Field, dir: Direction) -> Seq<Pos> {
        let nh = self.spec_new_head(field, dir);
        if nh == field.food.position {
            seq![nh] + self.body@
        } else {
            seq![nh] + self.body@.drop_last()
        }
    }

    /// A step in `dir` leaves the snake alive.
    pub open spec fn survives(self, field: Field, dir: Direction) -> bool {
        !has_self_collision(self.future_body(field, dir))
    }

    /// A new snake: five segments along the top row, head at `x == 4`.
    /// Well-formed on every grid at least 5 wide and 1 tall.
    pub fn new(kind: char) -> (s: Snake)
        ensures
            s.kind == kind,
            s.body@ == initial_body(),
            forall|w: int, h: int| w >= 5 && h >= 1 ==> #[trigger] s.wf(w, h),
    {
        let mut body: Vec<Pos> = Vec::new();
        body.push(Pos { x: 4, y: 0 });
        body.push(Pos { x: 3, y: 0 });
        body.push(Pos { x: 2, y: 0 });
        body.push(Pos { x: 1, y: 0 });
        body.push(Pos { x: 0, y: 0 });
        proof {
            assert(body@ =~= initial_body());
        }
        Snake { kind, body }
    }

    /// A deep, independent copy of the body, for look-ahead simulation:
    /// mutating the copy never affects the real state.
    pub fn clone_body(&self) -> (r: Vec<Pos>)
        ensures
            r@ == self.body@,
    {
        let mut r: Vec<Pos> = Vec::new();
        let mut i: usize = 0;
        while i < self.body.len()
            invariant
                i <= self.body@.len(),
                r@ == self.body@.subrange(0, i as int),
            decreases self.body@.len() - i,
        {
            r.push(self.body[i]);
            proof {
                assert(r@ =~= self.body@.subrange(0, i + 1));
            }
            i += 1;
        }
        proof {
            assert(r@ =~= self.body@);
        }
        r
    }

    /// One step in `dir`: the wrapped move of the head is prepended; if it
    /// lands on the food, the snake keeps its tail (net growth by one) and
    /// the food respawns at a cell drawn from the injected capability,
    /// keeping its glyph; otherwise the tail is removed and the field is
    /// untouched.
    pub fn step(&mut self, field: &mut Field, dir: &Direction, rng: &mut SimRng)
        requires
            old(self).wf(old(field).width as int, old(field).height as int),
            old(field).wf(),
        ensures
            step_rel(*old(self), *old(field), *final(self), *final(field), *dir),
            final(self).body@ == old(self).future_body(*old(field), *dir),
            final(self).wf(final(field).width as int, final(field).height as int),
            final(field).wf(),
    {
        let ghost body0 = self.body@;
        let head = self.body[0];
        let new_head = field.wrap_move(head, *dir);
        self.body.insert(0, new_head);
        proof {
            assert(self.body@ =~= seq![new_head] + body0);
        }
        if self.can_eat(field) {
            let p = field.get_random_pos(rng);
            field.food = Food { kind: field.food.kind, position: p };
        } else {
            let _ = self.body.pop();
            proof {
                assert(self.body@ =~= seq![new_head] + body0.drop_last());
            }
        }
    }

    /// Whether the snake has crossed over herself: some cell is held by
    /// two distinct body segments. Checked on the post-move body, which
    /// may include a newly grown segment.
    pub fn is_dead(&self) -> (r: bool)
        ensures
            r == has_self_collision(self.body@),
    {
        let n = self.body.len();
        let mut i: usize = 0;
        while i < n
            invariant
                n == self.body@.len(),
                i <= n,
                forall|a: int, b: int| 0 <= a < b < n && a < i ==> self.body@[a] != self.body@[b],
            decreases n - i,
        {
            let mut j: usize = i + 1;
            while j < n
                invariant
                    n == self.body@.len(),
                    i < n,
                    i < j <= n,
                    forall|b: int| i < b < j ==> self.body@[i as int] != self.body@[b],
                decreases n - j,
            {
                if self.body[i] == self.body[j] {
                    return true;
                }
                j += 1;
            }
            i += 1;
        }
        false
    }

    /// Whether the snake can eat: her head is in the same cell as the food.
    pub fn can_eat(&self, field: &Field) -> (r: bool)
        requires
            self.body@.len() >= 1,
        ensures
            r == (self.body@[0] == field.food.position),
    {
        if self.body[0] == field.food.position {
            return true;
        }
        return false;
    }
}

/// The death check is order-blind: two bodies holding the same multiset
/// of cells (any permutation, of equal length) collide alike.
pub proof fn lemma_self_collision_permutation(b1: Seq<Pos>, b2: Seq<Pos>)
    requires
        b1.to_multiset() == b2.to_multiset(),
    ensures
        has_self_collision(b1) == has_self_collision(b2),
{
    lemma_collision_iff_duplicates(b1);
    lemma_collision_iff_duplicates(b2);
    if !has_self_collision(b1) {
        b1.lemma_multiset_has_no_duplicates();
        b2.lemma_multiset_has_no_duplicates_conv();
    }
    if !has_self_collision(b2) {
        b2.lemma_multiset_has_no_duplicates();
        b1.lemma_multiset_has_no_duplicates_conv();
    }
}

/// A self-collision is exactly a duplicate element.
pub proof fn lemma_collision_iff_duplicates(s: Seq<Pos>)
    ensures
        has_self_collision(s) <==> !s.no_duplicates(),
{
    if !s.no_duplicates() {
        let (i, j) = choose|i: int, j: int|
            0 <= i < s.len() && 0 <= j < s.len() && i != j && s[i] == s[j];
        if i < j {
            assert(0 <= i < j < s.len() && s[i] == s[j]);
        } else {
            assert(0 <= j < i < s.len() && s[j] == s[i]);
        }
    }
}

} // verus!
