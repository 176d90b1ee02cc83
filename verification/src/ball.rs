//! A round free-flight body driven by the closed-form projectile formula.

use vstd::prelude::*;

use crate::position::Position;
use crate::rational::{try_q_add, try_q_mul, Q};
use crate::vector::Vector;

verus! {

/// Closed-form projectile motion over `t` seconds:
/// `p' = p + v*t + a*t*t/2` and `v' = v + a*t`;
/// `None` when a result cannot be stored.
pub open spec fn try_go_ballistic(p: Position, v: Vector, a: Vector, t: Q) -> Option<
    (Position, Vector),
> {
    let half = Q { num: 1, den: 2 };
    match (try_q_mul(t, t), try_q_mul(v.x, t), try_q_mul(v.y, t)) {
        (Some(t2), Some(vxt), Some(vyt)) => match (try_q_mul(half, a.x), try_q_mul(half, a.y)) {
            (Some(hax), Some(hay)) => match (try_q_mul(hax, t2), try_q_mul(hay, t2)) {
                (Some(qx), Some(qy)) => match (
                    try_q_add(p.x, vxt),
                    try_q_add(p.y, vyt),
                    try_q_mul(a.x, t),
                    try_q_mul(a.y, t),
                ) {
                    (Some(sx), Some(sy), Some(axt), Some(ayt)) => match (
                        try_q_add(sx, qx),
                        try_q_add(sy, qy),
                        try_q_add(v.x, axt),
                        try_q_add(v.y, ayt),
                    ) {
                        (Some(px), Some(py), Some(vx), Some(vy)) => Some(
                            (Position { x: px, y: py }, Vector { x: vx, y: vy }),
                        ),
                        _ => None,
                    },
                    _ => None,
                },
                _ => None,
            },
            _ => None,
        },
        _ => None,
    }
}

/// The closed-form flight, as a function from plain values to plain values.
pub fn go_ballistic(position: Position, velocity: Vector, acceleration: Vector, time_seconds: Q) -> (
    r: Option<(Position, Vector)>)
    requires
        position.wf(),
        velocity.wf(),
        acceleration.wf(),
        time_seconds.wf(),
    ensures
        r == try_go_ballistic(position, velocity, acceleration, time_seconds),
        r matches Some(pv) ==> pv.0.wf() && pv.1.wf(),
{
    let half = Q { num: 1, den: 2 };
    let t2 = match time_seconds.try_mul(&time_seconds) {
        Some(q) => q,
        None => {
            return None;
        },
    };
    let vxt = match velocity.x.try_mul(&time_seconds) {
        Some(q) => q,
        None => {
            return None;
        },
    };
    let vyt = match velocity.y.try_mul(&time_seconds) {
        Some(q) => q,
        None => {
            return None;
        },
    };
    let hax = match half.try_mul(&acceleration.x) {
        Some(q) => q,
        None => {
            return None;
        },
    };
    let hay = match half.try_mul(&acceleration.y) {
        Some(q) => q,
        None => {
            return None;
        },
    };
    let qx = match hax.try_mul(&t2) {
        Some(q) => q,
        None => {
            return None;
        },
    };
    let qy = match hay.try_mul(&t2) {
        Some(q) => q,
        None => {
            return None;
        },
    };
    let sx = match position.x.try_add(&vxt) {
        Some(q) => q,
        None => {
            return None;
        },
    };
    let sy = match position.y.try_add(&vyt) {
        Some(q) => q,
        None => {
            return None;
        },
    };
    let axt = match acceleration.x.try_mul(&time_seconds) {
        Some(q) => q,
        None => {
            return None;
        },
    };
    let ayt = match acceleration.y.try_mul(&time_seconds) {
        Some(q) => q,
        None => {
            return None;
        },
    };
    let px = match sx.try_add(&qx) {
        Some(q) => q,
        None => {
            return None;
        },
    };
    let py = match sy.try_add(&qy) {
        Some(q) => q,
        None => {
            return None;
        },
    };
    let vx = match velocity.x.try_add(&axt) {
        Some(q) => q,
        None => {
            return None;
        },
    };
    let vy = match velocity.y.try_add(&ayt) {
        Some(q) => q,
        None => {
            return None;
        },
    };
    Some((Position { x: px, y: py }, Vector { x: vx, y: vy }))
}

/// A round body in free flight.
#[derive(Clone, Copy, Debug, PartialEq, Eq, Structural)]
pub struct Ball {
    pub position: Position,
    pub velocity: Vector,
    pub radius: Q,
}

impl Ball {
    pub open spec fn wf(&self) -> bool {
        self.position.wf() && self.velocity.wf() && self.radius.wf()
    }

    pub fn new(position: Position, velocity: Vector, radius: Q) -> (r: Ball)
        ensures
            r == (Ball { position, velocity, radius }),
    {
        Ball { position, velocity, radius }
    }

    /// Fly for `time_seconds` under the given constant acceleration, by the
    /// closed form; on a result that cannot be stored the ball is left as it
    /// was.
    pub fn mv(&mut self, acceleration: Vector, time_seconds: Q) -> (ok: bool)
        requires
            old(self).wf(),
            acceleration.wf(),
            time_seconds.wf(),
        ensures
            ({
                let r = try_go_ballistic(
                    old(self).position,
                    old(self).velocity,
                    acceleration,
                    time_seconds,
                );
                &&& ok == (r is Some)
                &&& ok ==> final(self).position == r->Some_0.0 && final(self).velocity
                    == r->Some_0.1
                &&& !ok ==> final(self).position == old(self).position && final(self).velocity
                    == old(self).velocity
            }),
            final(self).radius == old(self).radius,
            final(self).wf(),
    {
        match go_ballistic(self.position, self.velocity, acceleration, time_seconds) {
            Some((p, v)) => {
                self.position = p;
                self.velocity = v;
                true
            },
            None => false,
        }
    }

    pub fn get_velocity(&self) -> (r: Vector)
        ensures
            r == self.velocity,
    {
        self.velocity
    }

    pub fn get_position(&self) -> (r: Position)
        ensures
            r == self.position,
    {
        self.position
    }

    pub fn get_height(&self) -> (r: Q)
        ensures
            r == self.radius,
    {
        self.radius
    }

    pub fn get_width(&self) -> (r: Q)
        ensures
            r == self.radius,
    {
        self.radius
    }
}

} // verus!
