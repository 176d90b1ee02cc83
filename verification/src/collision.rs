//! Pairwise collision resolution from masses, velocities and a collision
//! kind, using momentum-conserving formulas.

use vstd::prelude::*;

use crate::rational::{
    lemma_norm_eq, lemma_rat_div_congr_l, lemma_rat_eq_trans, lemma_rat_mul_congr_l,
    lemma_rat_mul_div_cancel, lemma_rat_ops_wf, rat_div, rat_eq, rat_int, rat_lt, rat_mul,
    rat_sub, rat_wf, try_rat_add, try_rat_mul, try_rat_sub, Q, Rat,
};
use crate::rational::{try_q_add, try_q_mul, try_q_sub};
use crate::vector::{
    rv_eq, rv_wf, try_rv_add, try_rv_div, try_rv_scale, try_v_add, try_v_div, try_v_scale, RatV,
    Vector,
};

verus! {

/// How a pair of colliding bodies exchanges momentum.
#[derive(Clone, Copy, Debug, PartialEq, Eq, Structural)]
pub enum CollisionKind {
    Elastic,
    Damping(Q),
    PerfectlyInelastic,
}

pub open spec fn kind_wf(k: CollisionKind) -> bool {
    match k {
        CollisionKind::Damping(f) => f.wf(),
        _ => true,
    }
}

/// The damping factor carried by the kind; zero for the other kinds.
pub open spec fn kind_factor(k: CollisionKind) -> Rat {
    match k {
        CollisionKind::Damping(f) => f@,
        _ => rat_int(0),
    }
}

/// Momentum-swap resolution: each body takes the other's momentum divided by
/// its own mass, and the horizontal component is then scaled by
/// `1 - factor`.
pub open spec fn try_swap_pair(m1: Rat, v1: RatV, m2: Rat, v2: RatV, factor: Rat) -> Option<
    (RatV, RatV),
> {
    match (try_rv_scale(v1, m1), try_rv_scale(v2, m2)) {
        (Some(p1), Some(p2)) => match (try_rv_div(p2, m1), try_rv_div(p1, m2)) {
            (Some(a0), Some(b0)) => match try_rat_sub(rat_int(1), factor) {
                Some(omf) => match (try_rat_mul(a0.x, omf), try_rat_mul(b0.x, omf)) {
                    (Some(ax), Some(bx)) => Some(
                        (RatV { x: ax, y: a0.y }, RatV { x: bx, y: b0.y }),
                    ),
                    _ => None,
                },
                None => None,
            },
            _ => None,
        },
        _ => None,
    }
}

/// Perfectly inelastic resolution: both bodies leave with the total momentum
/// divided by the total mass.
pub open spec fn try_inelastic_pair(m1: Rat, v1: RatV, m2: Rat, v2: RatV) -> Option<
    (RatV, RatV),
> {
    match (try_rv_scale(v1, m1), try_rv_scale(v2, m2)) {
        (Some(p1), Some(p2)) => match (try_rv_add(p1, p2), try_rat_add(m1, m2)) {
            (Some(ptot), Some(mtot)) => match try_rv_div(ptot, mtot) {
                Some(vf) => Some((vf, vf)),
                None => None,
            },
            _ => None,
        },
        _ => None,
    }
}

/// Post-collision velocities for both bodies, by kind.
pub open spec fn simulate_spec(m1: Rat, v1: RatV, m2: Rat, v2: RatV, kind: CollisionKind) -> Option<
    (RatV, RatV),
> {
    match kind {
        CollisionKind::PerfectlyInelastic => try_inelastic_pair(m1, v1, m2, v2),
        _ => try_swap_pair(m1, v1, m2, v2, kind_factor(kind)),
    }
}

/// The damping factor as stored; zero for the other kinds.
pub open spec fn kind_factor_q(k: CollisionKind) -> Q {
    match k {
        CollisionKind::Damping(f) => f,
        _ => Q { num: 0, den: 1 },
    }
}

/// Stored form of the momentum-swap resolution.
pub open spec fn try_swap_pair_q(m1: Q, v1: Vector, m2: Q, v2: Vector, factor: Q) -> Option<
    (Vector, Vector),
> {
    match (try_v_scale(v1, m1), try_v_scale(v2, m2)) {
        (Some(p1), Some(p2)) => match (try_v_div(p2, m1), try_v_div(p1, m2)) {
            (Some(a0), Some(b0)) => match try_q_sub(Q { num: 1, den: 1 }, factor) {
                Some(omf) => match (try_q_mul(a0.x, omf), try_q_mul(b0.x, omf)) {
                    (Some(ax), Some(bx)) => Some(
                        (Vector { x: ax, y: a0.y }, Vector { x: bx, y: b0.y }),
                    ),
                    _ => None,
                },
                None => None,
            },
            _ => None,
        },
        _ => None,
    }
}

/// Stored form of the perfectly inelastic resolution.
pub open spec fn try_inelastic_pair_q(m1: Q, v1: Vector, m2: Q, v2: Vector) -> Option<
    (Vector, Vector),
> {
    match (try_v_scale(v1, m1), try_v_scale(v2, m2)) {
        (Some(p1), Some(p2)) => match (try_v_add(p1, p2), try_q_add(m1, m2)) {
            (Some(ptot), Some(mtot)) => match try_v_div(ptot, mtot) {
                Some(vf) => Some((vf, vf)),
                None => None,
            },
            _ => None,
        },
        _ => None,
    }
}

/// Stored post-collision velocities for both bodies, by kind.
pub open spec fn simulate_q(c: Collision) -> Option<(Vector, Vector)> {
    match c.kind {
        CollisionKind::PerfectlyInelastic => try_inelastic_pair_q(
            c.obj1.0,
            c.obj1.1,
            c.obj2.0,
            c.obj2.1,
        ),
        _ => try_swap_pair_q(c.obj1.0, c.obj1.1, c.obj2.0, c.obj2.1, kind_factor_q(c.kind)),
    }
}

pub open spec fn opt_pair(o: Option<(Vector, Vector)>) -> Option<(RatV, RatV)> {
    match o {
        Some(p) => Some((p.0@, p.1@)),
        None => None,
    }
}

/// One collision to resolve: `(mass, velocity)` of both bodies and the kind.
#[derive(Clone, Copy, Debug)]
pub struct Collision {
    pub obj1: (Q, Vector),
    pub obj2: (Q, Vector),
    pub kind: CollisionKind,
}

impl Collision {
    pub open spec fn wf(&self) -> bool {
        &&& self.obj1.0.wf()
        &&& self.obj1.1.wf()
        &&& self.obj2.0.wf()
        &&& self.obj2.1.wf()
        &&& kind_wf(self.kind)
    }

    /// Post-collision velocities of both bodies; `None` when a quotient has
    /// a zero divisor or a result leaves the machine range.
    pub fn simulate(&self) -> (r: Option<(Vector, Vector)>)
        requires
            self.wf(),
        ensures
            opt_pair(r) == simulate_spec(
                self.obj1.0@,
                self.obj1.1@,
                self.obj2.0@,
                self.obj2.1@,
                self.kind,
            ),
            r == simulate_q(*self),
            r matches Some(p) ==> p.0.wf() && p.1.wf(),
            self.kind is PerfectlyInelastic ==> (r matches Some(p) ==> p.0 == p.1),
    {
        let (m1, v1) = self.obj1;
        let (m2, v2) = self.obj2;
        match self.kind {
            CollisionKind::PerfectlyInelastic => {
                let p1 = match v1.try_scale(&m1) {
                    Some(p) => p,
                    None => {
                        return None;
                    },
                };
                let p2 = match v2.try_scale(&m2) {
                    Some(p) => p,
                    None => {
                        return None;
                    },
                };
                let ptot = match p1.try_add(&p2) {
                    Some(p) => p,
                    None => {
                        return None;
                    },
                };
                let mtot = match m1.try_add(&m2) {
                    Some(m) => m,
                    None => {
                        return None;
                    },
                };
                match ptot.try_div(&mtot) {
                    Some(vf) => Some((vf, vf)),
                    None => None,
                }
            },
            kind => {
                let factor = if let CollisionKind::Damping(f) = kind {
                    f
                } else {
                    Q::zero()
                };
                let p1 = match v1.try_scale(&m1) {
                    Some(p) => p,
                    None => {
                        return None;
                    },
                };
                let p2 = match v2.try_scale(&m2) {
                    Some(p) => p,
                    None => {
                        return None;
                    },
                };
                let v1f = match p2.try_div(&m1) {
                    Some(v) => v,
                    None => {
                        return None;
                    },
                };
                let v2f = match p1.try_div(&m2) {
                    Some(v) => v,
                    None => {
                        return None;
                    },
                };
                let one_minus = match Q::from_int(1).try_sub(&factor) {
                    Some(q) => q,
                    None => {
                        return None;
                    },
                };
                let ax = match v1f.x.try_mul(&one_minus) {
                    Some(q) => q,
                    None => {
                        return None;
                    },
                };
                let bx = match v2f.x.try_mul(&one_minus) {
                    Some(q) => q,
                    None => {
                        return None;
                    },
                };
                Some((Vector { x: ax, y: v1f.y }, Vector { x: bx, y: v2f.y }))
            },
        }
    }
}

/// A value scaled by `m` and then divided by `m` is the original value.
proof fn lemma_scale_div_chain(v: Rat, m: Rat, p: Rat, a: Rat)
    requires
        rat_wf(v),
        rat_wf(m),
        rat_wf(p),
        rat_wf(a),
        m.n != 0,
        rat_eq(p, rat_mul(v, m)),
        rat_eq(a, rat_div(p, m)),
    ensures
        rat_eq(a, v),
{
    lemma_rat_ops_wf(v, m);
    lemma_rat_ops_wf(p, m);
    lemma_rat_ops_wf(rat_mul(v, m), m);
    lemma_rat_div_congr_l(p, rat_mul(v, m), m);
    lemma_rat_mul_div_cancel(v, m);
    lemma_rat_eq_trans(a, rat_div(p, m), rat_div(rat_mul(v, m), m));
    lemma_rat_eq_trans(a, rat_div(rat_mul(v, m), m), v);
}

/// Law: a damped collision of two bodies of one mass swaps the velocities
/// and scales each horizontal component by `1 - factor`, leaving the
/// vertical components untouched.
pub proof fn lemma_damped_swap_equal_masses(m: Rat, v1: RatV, v2: RatV, f: Rat)
    requires
        rat_wf(m),
        rv_wf(v1),
        rv_wf(v2),
        rat_wf(f),
        rat_lt(rat_int(0), m),
    ensures
        try_swap_pair(m, v1, m, v2, f) matches Some(p) ==> {
            &&& rat_eq(p.0.x, rat_mul(v2.x, rat_sub(rat_int(1), f)))
            &&& rat_eq(p.0.y, v2.y)
            &&& rat_eq(p.1.x, rat_mul(v1.x, rat_sub(rat_int(1), f)))
            &&& rat_eq(p.1.y, v1.y)
        },
{
    let o = try_swap_pair(m, v1, m, v2, f);
    if o is Some {
        let p1 = try_rv_scale(v1, m)->Some_0;
        let p2 = try_rv_scale(v2, m)->Some_0;
        let a0 = try_rv_div(p2, m)->Some_0;
        let b0 = try_rv_div(p1, m)->Some_0;
        let omf = try_rat_sub(rat_int(1), f)->Some_0;
        let one_minus = rat_sub(rat_int(1), f);
        lemma_rat_ops_wf(rat_int(1), f);
        lemma_norm_eq(one_minus);
        lemma_rat_ops_wf(v1.x, m);
        lemma_rat_ops_wf(v1.y, m);
        lemma_rat_ops_wf(v2.x, m);
        lemma_rat_ops_wf(v2.y, m);
        lemma_norm_eq(rat_mul(v1.x, m));
        lemma_norm_eq(rat_mul(v1.y, m));
        lemma_norm_eq(rat_mul(v2.x, m));
        lemma_norm_eq(rat_mul(v2.y, m));
        lemma_rat_ops_wf(p1.x, m);
        lemma_rat_ops_wf(p1.y, m);
        lemma_rat_ops_wf(p2.x, m);
        lemma_rat_ops_wf(p2.y, m);
        lemma_norm_eq(rat_div(p1.x, m));
        lemma_norm_eq(rat_div(p1.y, m));
        lemma_norm_eq(rat_div(p2.x, m));
        lemma_norm_eq(rat_div(p2.y, m));
        lemma_swap_one_side(m, v1, v2, p2, a0, omf, one_minus, o->Some_0.0);
        lemma_swap_one_side(m, v2, v1, p1, b0, omf, one_minus, o->Some_0.1);
    }
}

/// One body's half of the damped swap law.
proof fn lemma_swap_one_side(
    m: Rat,
    v_own: RatV,
    v_other: RatV,
    p_other: RatV,
    a0: RatV,
    omf: Rat,
    one_minus: Rat,
    res: RatV,
)
    requires
        rat_wf(m),
        rv_wf(v_own),
        rv_wf(v_other),
        rv_wf(p_other),
        rv_wf(a0),
        rat_wf(omf),
        rat_lt(rat_int(0), m),
        rat_wf(one_minus),
        rat_eq(omf, one_minus),
        try_rv_scale(v_other, m) == Some(p_other),
        try_rv_div(p_other, m) == Some(a0),
        try_rat_mul(a0.x, omf) == Some(res.x),
        res.y == a0.y,
    ensures
        rat_eq(res.x, rat_mul(v_other.x, one_minus)),
        rat_eq(res.y, v_other.y),
{
    lemma_rat_ops_wf(v_other.x, m);
    lemma_rat_ops_wf(v_other.y, m);
    lemma_norm_eq(rat_mul(v_other.x, m));
    lemma_norm_eq(rat_mul(v_other.y, m));
    lemma_rat_ops_wf(p_other.x, m);
    lemma_rat_ops_wf(p_other.y, m);
    lemma_norm_eq(rat_div(p_other.x, m));
    lemma_norm_eq(rat_div(p_other.y, m));
    lemma_scale_div_chain(v_other.x, m, p_other.x, a0.x);
    lemma_scale_div_chain(v_other.y, m, p_other.y, a0.y);
    lemma_rat_ops_wf(a0.x, omf);
    lemma_norm_eq(rat_mul(a0.x, omf));
    lemma_rat_mul_congr_l(a0.x, v_other.x, omf);
    lemma_rat_mul_congr_l(omf, one_minus, v_other.x);
    lemma_rat_ops_wf(v_other.x, omf);
    lemma_rat_ops_wf(v_other.x, one_minus);
    lemma_rat_eq_trans(res.x, rat_mul(a0.x, omf), rat_mul(v_other.x, omf));
    assert(rat_eq(rat_mul(v_other.x, omf), rat_mul(v_other.x, one_minus)));
    lemma_rat_eq_trans(res.x, rat_mul(v_other.x, omf), rat_mul(v_other.x, one_minus));
}

/// Law: an elastic collision of two bodies of one mass swaps the two
/// velocities exactly.
pub proof fn lemma_elastic_swap_equal_masses(m: Rat, v1: RatV, v2: RatV)
    requires
        rat_wf(m),
        rv_wf(v1),
        rv_wf(v2),
        rat_lt(rat_int(0), m),
    ensures
        try_swap_pair(m, v1, m, v2, rat_int(0)) matches Some(p) ==> rv_eq(p.0, v2) && rv_eq(
            p.1,
            v1,
        ),
{
    lemma_damped_swap_equal_masses(m, v1, v2, rat_int(0));
    let o = try_swap_pair(m, v1, m, v2, rat_int(0));
    if o is Some {
        let p = o->Some_0;
        let one = rat_sub(rat_int(1), rat_int(0));
        assert(one.n == 1 && one.d == 1);
        assert(rat_mul(v2.x, one).n == v2.x.n && rat_mul(v2.x, one).d == v2.x.d);
        assert(rat_mul(v1.x, one).n == v1.x.n && rat_mul(v1.x, one).d == v1.x.d);
    }
}

/// Law: a perfectly inelastic collision leaves both bodies with one and the
/// same velocity.
pub proof fn lemma_inelastic_outputs_identical(m1: Rat, v1: RatV, m2: Rat, v2: RatV)
    ensures
        try_inelastic_pair(m1, v1, m2, v2) matches Some(p) ==> p.0 == p.1,
{
}

} // verus!
