//! World-space points over exact rationals.

use vstd::prelude::*;

use crate::rational::{rat_le, Q, Rat};
use crate::vector::RatV;

verus! {

/// The smaller of two rationals.
pub open spec fn rat_min(a: Rat, b: Rat) -> Rat {
    if rat_le(a, b) {
        a
    } else {
        b
    }
}

/// The larger of two rationals.
pub open spec fn rat_max(a: Rat, b: Rat) -> Rat {
    if rat_le(a, b) {
        b
    } else {
        a
    }
}

/// Membership in the axis-aligned box spanned by corners `a` and `b`,
/// inclusive of the boundary.
pub open spec fn contained_spec(p: RatV, a: RatV, b: RatV) -> bool {
    &&& rat_le(rat_min(a.x, b.x), p.x)
    &&& rat_le(p.x, rat_max(a.x, b.x))
    &&& rat_le(rat_min(a.y, b.y), p.y)
    &&& rat_le(p.y, rat_max(a.y, b.y))
}

/// A point in world units (not pixels).
#[derive(Clone, Copy, Debug, PartialEq, Eq, Structural)]
pub struct Position {
    pub x: Q,
    pub y: Q,
}

impl View for Position {
    type V = RatV;

    open spec fn view(&self) -> RatV {
        RatV { x: self.x@, y: self.y@ }
    }
}

impl Position {
    pub open spec fn wf(&self) -> bool {
        self.x.wf() && self.y.wf()
    }

    pub fn new(x: Q, y: Q) -> (r: Position)
        ensures
            r == (Position { x, y }),
    {
        Position { x, y }
    }

    /// Whether the point lies in the axis-aligned box spanned by the two
    /// corner points, in either order, boundary included.
    pub fn contained_within(&self, a: Position, b: Position) -> (r: bool)
        requires
            self.wf(),
            a.wf(),
            b.wf(),
        ensures
            r == contained_spec(self@, a@, b@),
    {
        let x_min = if a.x.le(&b.x) {
            a.x
        } else {
            b.x
        };
        let x_max = if a.x.le(&b.x) {
            b.x
        } else {
            a.x
        };
        let y_min = if a.y.le(&b.y) {
            a.y
        } else {
            b.y
        };
        let y_max = if a.y.le(&b.y) {
            b.y
        } else {
            a.y
        };
        x_min.le(&self.x) && self.x.le(&x_max) && y_min.le(&self.y) && self.y.le(&y_max)
    }
}

/// The box test is inclusive of its boundary: both corner points lie in the
/// box they span.
pub proof fn lemma_contained_within_inclusive(a: RatV, b: RatV)
    requires
        crate::vector::rv_wf(a),
        crate::vector::rv_wf(b),
    ensures
        contained_spec(a, a, b),
        contained_spec(b, a, b),
{
}

/// Swapping the corners swaps nothing in the lower-bound test.
proof fn lemma_min_swap(p: Rat, a: Rat, b: Rat)
    requires
        crate::rational::rat_wf(p),
        crate::rational::rat_wf(a),
        crate::rational::rat_wf(b),
    ensures
        rat_le(rat_min(a, b), p) == rat_le(rat_min(b, a), p),
{
    if rat_le(a, b) && rat_le(b, a) {
        if rat_le(a, p) {
            crate::rational::lemma_rat_le_trans(b, a, p);
        }
        if rat_le(b, p) {
            crate::rational::lemma_rat_le_trans(a, b, p);
        }
    }
}

/// Swapping the corners swaps nothing in the upper-bound test.
proof fn lemma_max_swap(p: Rat, a: Rat, b: Rat)
    requires
        crate::rational::rat_wf(p),
        crate::rational::rat_wf(a),
        crate::rational::rat_wf(b),
    ensures
        rat_le(p, rat_max(a, b)) == rat_le(p, rat_max(b, a)),
{
    if rat_le(a, b) && rat_le(b, a) {
        if rat_le(p, a) {
            crate::rational::lemma_rat_le_trans(p, a, b);
        }
        if rat_le(p, b) {
            crate::rational::lemma_rat_le_trans(p, b, a);
        }
    }
}

/// The box test does not depend on the order of its two corner arguments.
pub proof fn lemma_contained_within_order_independent(p: RatV, a: RatV, b: RatV)
    requires
        crate::vector::rv_wf(p),
        crate::vector::rv_wf(a),
        crate::vector::rv_wf(b),
    ensures
        contained_spec(p, a, b) == contained_spec(p, b, a),
{
    lemma_min_swap(p.x, a.x, b.x);
    lemma_min_swap(p.y, a.y, b.y);
    lemma_max_swap(p.x, a.x, b.x);
    lemma_max_swap(p.y, a.y, b.y);
}

} // verus!
