//! 2D displacement/velocity/acceleration vectors over exact rationals.

use vstd::prelude::*;

use crate::position::Position;
use crate::rational::{
    rat_eq, rat_int, rat_le, rat_mul, rat_norm, rat_wf, try_rat_add, try_rat_div, try_rat_mul,
    try_rat_sub, Q, Rat,
};

verus! {

/// Mathematical value of a [`Vector`] or a [`Position`]: a pair of fractions.
pub ghost struct RatV {
    pub x: Rat,
    pub y: Rat,
}

pub open spec fn rv_wf(v: RatV) -> bool {
    rat_wf(v.x) && rat_wf(v.y)
}

/// Componentwise equality of the denoted rational pairs.
pub open spec fn rv_eq(a: RatV, b: RatV) -> bool {
    rat_eq(a.x, b.x) && rat_eq(a.y, b.y)
}

pub open spec fn try_rv_add(a: RatV, b: RatV) -> Option<RatV> {
    match (try_rat_add(a.x, b.x), try_rat_add(a.y, b.y)) {
        (Some(x), Some(y)) => Some(RatV { x, y }),
        _ => None,
    }
}

pub open spec fn try_rv_sub(a: RatV, b: RatV) -> Option<RatV> {
    match (try_rat_sub(a.x, b.x), try_rat_sub(a.y, b.y)) {
        (Some(x), Some(y)) => Some(RatV { x, y }),
        _ => None,
    }
}

/// Both components multiplied by the scalar `k`.
pub open spec fn try_rv_scale(a: RatV, k: Rat) -> Option<RatV> {
    match (try_rat_mul(a.x, k), try_rat_mul(a.y, k)) {
        (Some(x), Some(y)) => Some(RatV { x, y }),
        _ => None,
    }
}

/// Both components divided by the scalar `k`.
pub open spec fn try_rv_div(a: RatV, k: Rat) -> Option<RatV> {
    match (try_rat_div(a.x, k), try_rat_div(a.y, k)) {
        (Some(x), Some(y)) => Some(RatV { x, y }),
        _ => None,
    }
}

pub open spec fn rv_neg(a: RatV) -> RatV {
    RatV { x: crate::rational::rat_neg(a.x), y: crate::rational::rat_neg(a.y) }
}

/// Checked `x*bx + y*by`.
pub open spec fn try_rv_dot(a: RatV, b: RatV) -> Option<Rat> {
    match (try_rat_mul(a.x, b.x), try_rat_mul(a.y, b.y)) {
        (Some(px), Some(py)) => try_rat_add(px, py),
        _ => None,
    }
}

/// Checked squared magnitude `x*x + y*y`.
pub open spec fn try_rv_mag_sq(a: RatV) -> Option<Rat> {
    try_rv_dot(a, a)
}

/// There is a whole number whose square is `x`.
pub open spec fn is_square(x: int) -> bool {
    exists|k: int| 0 <= k && x == #[trigger] (k * k)
}

/// Exact magnitude: the nonnegative rational square root of `x*x + y*y`,
/// where one exists and its reduced form can be stored.
pub open spec fn rv_magnitude(a: RatV) -> Option<Rat> {
    match try_rv_mag_sq(a) {
        Some(s) => {
            let t = s.n * s.d;
            if is_square(t) {
                let k = choose|k: int| 0 <= k && t == #[trigger] (k * k);
                rat_norm(Rat { n: k, d: s.d })
            } else {
                None
            }
        },
        None => None,
    }
}

/// Magnitude-scaled copy: each component divided by the magnitude, when the
/// magnitude exists, is not zero, and the quotients can be stored.
pub open spec fn rv_normalize(a: RatV) -> Option<RatV> {
    match rv_magnitude(a) {
        Some(m) => {
            if m.n == 0 {
                None
            } else {
                try_rv_div(a, m)
            }
        },
        None => None,
    }
}

/// A 2D vector with exact rational components.
#[derive(Clone, Copy, Debug, PartialEq, Eq, Structural)]
pub struct Vector {
    pub x: Q,
    pub y: Q,
}

/// Stored form of a checked componentwise pair.
pub open spec fn v_of(x: Option<Q>, y: Option<Q>) -> Option<Vector> {
    match (x, y) {
        (Some(x), Some(y)) => Some(Vector { x, y }),
        _ => None,
    }
}

pub open spec fn try_v_add(a: Vector, b: Vector) -> Option<Vector> {
    v_of(crate::rational::try_q_add(a.x, b.x), crate::rational::try_q_add(a.y, b.y))
}

pub open spec fn try_v_sub(a: Vector, b: Vector) -> Option<Vector> {
    v_of(crate::rational::try_q_sub(a.x, b.x), crate::rational::try_q_sub(a.y, b.y))
}

pub open spec fn try_v_scale(a: Vector, k: Q) -> Option<Vector> {
    v_of(crate::rational::try_q_mul(a.x, k), crate::rational::try_q_mul(a.y, k))
}

pub open spec fn try_v_div(a: Vector, k: Q) -> Option<Vector> {
    v_of(crate::rational::try_q_div(a.x, k), crate::rational::try_q_div(a.y, k))
}

impl View for Vector {
    type V = RatV;

    open spec fn view(&self) -> RatV {
        RatV { x: self.x@, y: self.y@ }
    }
}

/// Mathematical value of a checked vector result.
pub open spec fn opt_rv(o: Option<Vector>) -> Option<RatV> {
    match o {
        Some(v) => Some(v@),
        None => None,
    }
}

/// Mathematical value of a checked scalar result.
pub open spec fn opt_rat_q(o: Option<Q>) -> Option<Rat> {
    match o {
        Some(q) => Some(q@),
        None => None,
    }
}

impl Vector {
    pub open spec fn wf(&self) -> bool {
        self.x.wf() && self.y.wf()
    }

    pub fn new(x: Q, y: Q) -> (r: Vector)
        ensures
            r == (Vector { x, y }),
    {
        Vector { x, y }
    }

    /// The displacement from `p0` to `p1`.
    pub fn between(p0: Position, p1: Position) -> (r: Option<Vector>)
        requires
            p0.wf(),
            p1.wf(),
        ensures
            opt_rv(r) == try_rv_sub(p1@, p0@),
            r == try_v_sub(Vector { x: p1.x, y: p1.y }, Vector { x: p0.x, y: p0.y }),
            r matches Some(v) ==> v.wf(),
    {
        match (p1.x.try_sub(&p0.x), p1.y.try_sub(&p0.y)) {
            (Some(x), Some(y)) => Some(Vector { x, y }),
            _ => None,
        }
    }

    pub fn try_add(&self, other: &Vector) -> (r: Option<Vector>)
        requires
            self.wf(),
            other.wf(),
        ensures
            opt_rv(r) == try_rv_add(self@, other@),
            r == try_v_add(*self, *other),
            r matches Some(v) ==> v.wf(),
    {
        match (self.x.try_add(&other.x), self.y.try_add(&other.y)) {
            (Some(x), Some(y)) => Some(Vector { x, y }),
            _ => None,
        }
    }

    pub fn try_sub(&self, other: &Vector) -> (r: Option<Vector>)
        requires
            self.wf(),
            other.wf(),
        ensures
            opt_rv(r) == try_rv_sub(self@, other@),
            r == try_v_sub(*self, *other),
            r matches Some(v) ==> v.wf(),
    {
        match (self.x.try_sub(&other.x), self.y.try_sub(&other.y)) {
            (Some(x), Some(y)) => Some(Vector { x, y }),
            _ => None,
        }
    }

    /// Both components multiplied by the scalar `k`.
    pub fn try_scale(&self, k: &Q) -> (r: Option<Vector>)
        requires
            self.wf(),
            k.wf(),
        ensures
            opt_rv(r) == try_rv_scale(self@, k@),
            r == try_v_scale(*self, *k),
            r matches Some(v) ==> v.wf(),
    {
        match (self.x.try_mul(k), self.y.try_mul(k)) {
            (Some(x), Some(y)) => Some(Vector { x, y }),
            _ => None,
        }
    }

    /// Both components divided by the scalar `k`.
    pub fn try_div(&self, k: &Q) -> (r: Option<Vector>)
        requires
            self.wf(),
            k.wf(),
        ensures
            opt_rv(r) == try_rv_div(self@, k@),
            r == try_v_div(*self, *k),
            r matches Some(v) ==> v.wf(),
    {
        match (self.x.try_div(k), self.y.try_div(k)) {
            (Some(x), Some(y)) => Some(Vector { x, y }),
            _ => None,
        }
    }

    pub fn neg(&self) -> (r: Vector)
        requires
            self.wf(),
        ensures
            r.wf(),
            r@ == rv_neg(self@),
    {
        Vector { x: self.x.neg(), y: self.y.neg() }
    }

    /// Dot product.
    pub fn dot(&self, other: Vector) -> (r: Option<Q>)
        requires
            self.wf(),
            other.wf(),
        ensures
            opt_rat_q(r) == try_rv_dot(self@, other@),
            r matches Some(q) ==> q.wf(),
    {
        match (self.x.try_mul(&other.x), self.y.try_mul(&other.y)) {
            (Some(px), Some(py)) => px.try_add(&py),
            _ => None,
        }
    }

    /// Exact length, where the squared length has a rational square root.
    pub fn magnitude(&self) -> (r: Option<Q>)
        requires
            self.wf(),
        ensures
            opt_rat_q(r) == rv_magnitude(self@),
            r matches Some(q) ==> q.wf() && rat_le(rat_int(0), q@),
    {
        let s = match (self.x.try_mul(&self.x), self.y.try_mul(&self.y)) {
            (Some(px), Some(py)) => px.try_add(&py),
            _ => None,
        };
        match s {
            None => None,
            Some(sq) => {
                proof {
                    lemma_mag_sq_nonneg(self@, sq@);
                }
                let t = crate::rational::wide_mul(sq.num, sq.den);
                proof {
                    assert(t >= 0) by (nonlinear_arith)
                        requires
                            t == (sq.num as int) * (sq.den as int),
                            sq.num as int >= 0,
                            sq.den as int >= 1,
                    ;
                }
                let tu = t as u128;
                let k = isqrt_u128(tu);
                if k * k == tu {
                    proof {
                        lemma_sqrt_unique(t as int, k as int);
                    }
                    let r = crate::rational::q_norm(k as i128, sq.den as i128);
                    proof {
                        lemma_norm_sign(Rat { n: k as int, d: sq.den as int });
                    }
                    r
                } else {
                    proof {
                        lemma_no_sqrt(t as int, k as int);
                    }
                    None
                }
            },
        }
    }

    /// Unit-length copy; `None` for the zero vector or where no exact
    /// magnitude exists.
    pub fn normalize(&self) -> (r: Option<Vector>)
        requires
            self.wf(),
        ensures
            opt_rv(r) == rv_normalize(self@),
            r matches Some(v) ==> v.wf(),
    {
        match self.magnitude() {
            None => None,
            Some(m) => {
                if m.is_zero() {
                    None
                } else {
                    self.try_div(&m)
                }
            },
        }
    }
}

/// The squared magnitude of a vector is never negative.
proof fn lemma_mag_sq_nonneg(v: RatV, s: Rat)
    requires
        rv_wf(v),
        try_rv_mag_sq(v) == Some(s),
    ensures
        s.n >= 0,
        rat_wf(s),
{
    let xx = rat_mul(v.x, v.x);
    let yy = rat_mul(v.y, v.y);
    assert(xx.n >= 0 && xx.d >= 1 && yy.n >= 0 && yy.d >= 1) by (nonlinear_arith)
        requires
            xx.n == v.x.n * v.x.n,
            xx.d == v.x.d * v.x.d,
            yy.n == v.y.n * v.y.n,
            yy.d == v.y.d * v.y.d,
            v.x.d >= 1,
            v.y.d >= 1,
    ;
    crate::rational::lemma_reduce_sign(xx);
    crate::rational::lemma_reduce_sign(yy);
    crate::rational::lemma_rat_reduce(xx);
    crate::rational::lemma_rat_reduce(yy);
    let px = try_rat_mul(v.x, v.x)->Some_0;
    let py = try_rat_mul(v.y, v.y)->Some_0;
    let sum = crate::rational::rat_add(px, py);
    assert(sum.n >= 0 && sum.d >= 1) by (nonlinear_arith)
        requires
            sum.n == px.n * py.d + py.n * px.d,
            sum.d == px.d * py.d,
            px.n >= 0,
            py.n >= 0,
            px.d >= 1,
            py.d >= 1,
    ;
    crate::rational::lemma_reduce_sign(sum);
    crate::rational::lemma_rat_reduce(sum);
}

/// Same fact for a fraction built with a nonnegative numerator.
proof fn lemma_norm_sign(r: Rat)
    requires
        rat_wf(r),
        r.n >= 0,
    ensures
        rat_norm(r) matches Some(q) ==> q.n >= 0 && rat_le(rat_int(0), q),
{
    crate::rational::lemma_reduce_sign(r);
    if rat_norm(r) is Some {
        let q = rat_norm(r)->Some_0;
        crate::rational::lemma_rat_reduce(r);
        assert(rat_le(rat_int(0), q)) by (nonlinear_arith)
            requires
                q.n >= 0,
                q.d >= 1,
        ;
    }
}

/// A whole-number square root found by search is the unique witness.
proof fn lemma_sqrt_unique(t: int, k: int)
    requires
        0 <= k,
        t == k * k,
    ensures
        is_square(t),
        (choose|j: int| 0 <= j && t == #[trigger] (j * j)) == k,
{
    assert(is_square(t));
    let j = choose|j: int| 0 <= j && t == #[trigger] (j * j);
    assert(j <= k) by (nonlinear_arith)
        requires
            0 <= j,
            0 <= k,
            j * j <= k * k,
    ;
    assert(k <= j) by (nonlinear_arith)
        requires
            0 <= j,
            0 <= k,
            k * k <= j * j,
    ;
}

/// If `k` brackets `t` strictly, `t` is no whole-number square.
proof fn lemma_no_sqrt(t: int, k: int)
    requires
        0 <= k,
        k * k <= t,
        t < (k + 1) * (k + 1),
        k * k != t,
    ensures
        !is_square(t),
{
    assert forall|j: int| !(0 <= j && t == #[trigger] (j * j)) by {
        if 0 <= j && t == j * j {
            assert(k <= j) by (nonlinear_arith)
                requires
                    0 <= j,
                    0 <= k,
                    k * k <= j * j,
                    k * k != j * j,
            ;
            assert(j <= k) by (nonlinear_arith)
                requires
                    0 <= j,
                    0 <= k,
                    j * j < (k + 1) * (k + 1),
            ;
        }
    }
}

/// Whole-number square root: `r*r <= t < (r+1)*(r+1)`.
fn isqrt_u128(t: u128) -> (r: u128)
    ensures
        (r as int) * (r as int) <= t as int,
        (t as int) < ((r as int) + 1) * ((r as int) + 1),
        r < 0x1_0000_0000_0000_0000u128,
{
    if t == 0 {
        return 0;
    }
    let mut lo: u128 = 0;
    let mut hi: u128 = 0x1_0000_0000_0000_0000;
    proof {
        assert((hi as int) * (hi as int) > u128::MAX as int) by (nonlinear_arith)
            requires
                hi == 0x1_0000_0000_0000_0000u128,
        ;
    }
    while lo + 1 < hi
        invariant
            lo < hi <= 0x1_0000_0000_0000_0000u128,
            (lo as int) * (lo as int) <= t as int,
            (t as int) < (hi as int) * (hi as int),
        decreases hi - lo,
    {
        let mid = lo + (hi - lo) / 2;
        proof {
            assert((mid as int) * (mid as int) <= u128::MAX as int) by (nonlinear_arith)
                requires
                    mid < 0x1_0000_0000_0000_0000u128,
            ;
        }
        if mid * mid <= t {
            lo = mid;
        } else {
            hi = mid;
        }
    }
    lo
}

} // verus!
