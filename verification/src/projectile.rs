//! A free-flying body with a payload: explicit-Euler stepping and an
//! elastic momentum exchange.

use vstd::prelude::*;

use crate::position::Position;
use crate::rational::{neg_q, try_q_add, try_q_div, try_q_mul, Q};
use crate::vector::Vector;

verus! {

/// A body in free flight carrying a payload `T` (its drawable part).
#[derive(Clone, Copy, Debug)]
pub struct Projectile<T: Copy + core::fmt::Debug> {
    pub mass: Q,
    pub position: Position,
    pub velocity: Vector,
    pub object: T,
}

/// How two projectiles may collide; only the elastic exchange is defined.
#[derive(Clone, Copy, Debug, PartialEq, Eq, Structural)]
pub enum CollisionKind {
    Elastic,
    Inelastic,
    TotalInelastic,
}

/// The elastic exchange: each body takes the other's momentum, negated,
/// divided by its own mass; `None` when a zero mass divides or a result
/// cannot be stored.
pub open spec fn try_collide_elastic(ms: Q, vs: Vector, mo: Q, vo: Vector) -> Option<
    (Vector, Vector),
> {
    match (try_q_mul(vs.x, ms), try_q_mul(vs.y, ms), try_q_mul(vo.x, mo), try_q_mul(vo.y, mo)) {
        (Some(spx), Some(spy), Some(opx), Some(opy)) => match (
            try_q_div(neg_q(opx), ms),
            try_q_div(neg_q(opy), ms),
            try_q_div(neg_q(spx), mo),
            try_q_div(neg_q(spy), mo),
        ) {
            (Some(nsx), Some(nsy), Some(nox), Some(noy)) => Some(
                (Vector { x: nsx, y: nsy }, Vector { x: nox, y: noy }),
            ),
            _ => None,
        },
        _ => None,
    }
}

/// One explicit-Euler step: the position moves by the old velocity, then the
/// velocity takes the acceleration; `None` when a result cannot be stored.
pub open spec fn try_ballistic_step(p: Position, v: Vector, a: Vector, dt: Q) -> Option<
    (Position, Vector),
> {
    match (try_q_mul(dt, v.x), try_q_mul(dt, v.y), try_q_mul(dt, a.x), try_q_mul(dt, a.y)) {
        (Some(dpx), Some(dpy), Some(dvx), Some(dvy)) => match (
            try_q_add(p.x, dpx),
            try_q_add(p.y, dpy),
            try_q_add(v.x, dvx),
            try_q_add(v.y, dvy),
        ) {
            (Some(px), Some(py), Some(vx), Some(vy)) => Some(
                (Position { x: px, y: py }, Vector { x: vx, y: vy }),
            ),
            _ => None,
        },
        _ => None,
    }
}

impl<T: Copy + core::fmt::Debug> Projectile<T> {
    pub open spec fn wf(&self) -> bool {
        self.mass.wf() && self.position.wf() && self.velocity.wf()
    }

    /// Exchange momentum elastically: the two velocities take each other's
    /// negated momentum over their own mass. On a zero mass or a result that
    /// cannot be stored both bodies are left as they were.
    pub fn collide(&mut self, other: &mut Self, how: CollisionKind) -> (ok: bool)
        requires
            old(self).wf(),
            old(other).wf(),
            how is Elastic,
        ensures
            ({
                let r = try_collide_elastic(
                    old(self).mass,
                    old(self).velocity,
                    old(other).mass,
                    old(other).velocity,
                );
                &&& ok == (r is Some)
                &&& ok ==> final(self).velocity == r->Some_0.0 && final(other).velocity
                    == r->Some_0.1
                &&& !ok ==> final(self).velocity == old(self).velocity && final(other).velocity
                    == old(other).velocity
            }),
            final(self).mass == old(self).mass,
            final(self).position == old(self).position,
            final(self).object == old(self).object,
            final(other).mass == old(other).mass,
            final(other).position == old(other).position,
            final(other).object == old(other).object,
            final(self).wf(),
            final(other).wf(),
    {
        match how {
            CollisionKind::Elastic => {
                let spxi = match self.velocity.x.try_mul(&self.mass) {
                    Some(q) => q,
                    None => {
                        return false;
                    },
                };
                let spyi = match self.velocity.y.try_mul(&self.mass) {
                    Some(q) => q,
                    None => {
                        return false;
                    },
                };
                let opxi = match other.velocity.x.try_mul(&other.mass) {
                    Some(q) => q,
                    None => {
                        return false;
                    },
                };
                let opyi = match other.velocity.y.try_mul(&other.mass) {
                    Some(q) => q,
                    None => {
                        return false;
                    },
                };
                let nsx = match opxi.neg().try_div(&self.mass) {
                    Some(q) => q,
                    None => {
                        return false;
                    },
                };
                let nsy = match opyi.neg().try_div(&self.mass) {
                    Some(q) => q,
                    None => {
                        return false;
                    },
                };
                let nox = match spxi.neg().try_div(&other.mass) {
                    Some(q) => q,
                    None => {
                        return false;
                    },
                };
                let noy = match spyi.neg().try_div(&other.mass) {
                    Some(q) => q,
                    None => {
                        return false;
                    },
                };
                self.velocity = Vector { x: nsx, y: nsy };
                other.velocity = Vector { x: nox, y: noy };
                true
            },
            _ => false,
        }
    }

    /// One explicit-Euler step under the given acceleration; on a result
    /// that cannot be stored the body is left as it was.
    pub fn ballistic_step(&mut self, acceleration: Vector, time_step_seconds: Q) -> (ok: bool)
        requires
            old(self).wf(),
            acceleration.wf(),
            time_step_seconds.wf(),
        ensures
            ({
                let r = try_ballistic_step(
                    old(self).position,
                    old(self).velocity,
                    acceleration,
                    time_step_seconds,
                );
                &&& ok == (r is Some)
                &&& ok ==> final(self).position == r->Some_0.0 && final(self).velocity
                    == r->Some_0.1
                &&& !ok ==> final(self).position == old(self).position && final(self).velocity
                    == old(self).velocity
            }),
            final(self).mass == old(self).mass,
            final(self).object == old(self).object,
            final(self).wf(),
    {
        let dpx = match time_step_seconds.try_mul(&self.velocity.x) {
            Some(q) => q,
            None => {
                return false;
            },
        };
        let dpy = match time_step_seconds.try_mul(&self.velocity.y) {
            Some(q) => q,
            None => {
                return false;
            },
        };
        let dvx = match time_step_seconds.try_mul(&acceleration.x) {
            Some(q) => q,
            None => {
                return false;
            },
        };
        let dvy = match time_step_seconds.try_mul(&acceleration.y) {
            Some(q) => q,
            None => {
                return false;
            },
        };
        let px = match self.position.x.try_add(&dpx) {
            Some(q) => q,
            None => {
                return false;
            },
        };
        let py = match self.position.y.try_add(&dpy) {
            Some(q) => q,
            None => {
                return false;
            },
        };
        let vx = match self.velocity.x.try_add(&dvx) {
            Some(q) => q,
            None => {
                return false;
            },
        };
        let vy = match self.velocity.y.try_add(&dvy) {
            Some(q) => q,
            None => {
                return false;
            },
        };
        self.position = Position { x: px, y: py };
        self.velocity = Vector { x: vx, y: vy };
        true
    }
}

} // verus!
