//! The pixel-to-world coordinate transform: a square viewport anchored at a
//! world-space point, with the vertical axis flipped (pixel rows grow
//! downward, world y grows upward).

use vstd::prelude::*;

use crate::constants::SCREEN_SIZE;
use crate::level_object::{try_intersects, Rect};
use crate::position::Position;
use crate::rational::{
    clamp_u32, lemma_norm_eq, lemma_rat_ops_wf, lemma_reduce_integer, q_norm_spec, rat_add,
    rat_eq, rat_fits, rat_reduce, rat_sub, try_q_add, try_q_sub, Q,
};
use crate::vector::Vector;

verus! {

/// The viewport: its lower-left world-space corner and its size.
#[derive(Clone, Copy, Debug, PartialEq, Eq, Structural)]
pub struct Frame {
    pub anchor_point: Position,
    pub bbox: Rect,
}

/// World position of the pixel `(x, y)`: `x` to the right of the anchor,
/// `SCREEN_SIZE - y` above it. `None` when a coordinate cannot be stored.
pub open spec fn px_to_units_spec(anchor: Position, x: u32, y: u32) -> Option<Position> {
    match (
        try_q_add(Q { num: x as i64, den: 1 }, anchor.x),
        try_q_add(Q { num: (SCREEN_SIZE - y) as i64, den: 1 }, anchor.y),
    ) {
        (Some(px), Some(py)) => Some(Position { x: px, y: py }),
        _ => None,
    }
}

/// Pixel coordinates of a world position: the anchor displacement, floored
/// and clamped into pixel range, with the vertical axis flipped. `None` when
/// a displacement cannot be stored.
pub open spec fn units_to_px_spec(anchor: Position, pos: Position) -> Option<(u32, u32)> {
    match (try_q_sub(pos.x, anchor.x), try_q_sub(pos.y, anchor.y)) {
        (Some(dx), Some(dy)) => {
            let px = clamp_u32(dx@.n / dx@.d);
            let t = clamp_u32(dy@.n / dy@.d);
            if t <= SCREEN_SIZE {
                Some((px as u32, (SCREEN_SIZE - t) as u32))
            } else {
                Some((px as u32, 0u32))
            }
        },
        _ => None,
    }
}

/// Pixel coordinates for drawing, only when the object's hitbox overlaps
/// the viewport.
pub open spec fn drawing_coords_spec(f: Frame, position: Position, bbox: Rect) -> Option<
    (u32, u32),
> {
    match try_intersects(f.bbox, f.anchor_point, bbox, position) {
        Some(true) => units_to_px_spec(f.anchor_point, position),
        _ => None,
    }
}

impl Frame {
    pub open spec fn wf(&self) -> bool {
        self.anchor_point.wf() && self.bbox.wf()
    }

    pub fn new(anchor_point: Position) -> (r: Frame)
        ensures
            r.anchor_point == anchor_point,
            r.bbox == (Rect {
                width: Q { num: 160, den: 1 },
                height: Q { num: 160, den: 1 },
            }),
    {
        Frame { anchor_point, bbox: Rect::new(Q::from_int(160), Q::from_int(160)) }
    }

    pub fn get_position(&self) -> (r: Position)
        ensures
            r == self.anchor_point,
    {
        self.anchor_point
    }

    /// Move the viewport by `offset`; on a coordinate that cannot be stored
    /// the viewport stays where it was.
    pub fn mv(&mut self, offset: Vector) -> (ok: bool)
        requires
            old(self).wf(),
            offset.wf(),
        ensures
            ({
                let nx = try_q_add(old(self).anchor_point.x, offset.x);
                let ny = try_q_add(old(self).anchor_point.y, offset.y);
                &&& ok == (nx is Some && ny is Some)
                &&& ok ==> final(self).anchor_point == (Position {
                    x: nx->Some_0,
                    y: ny->Some_0,
                })
                &&& !ok ==> final(self).anchor_point == old(self).anchor_point
            }),
            final(self).bbox == old(self).bbox,
            final(self).wf(),
    {
        match (self.anchor_point.x.try_add(&offset.x), self.anchor_point.y.try_add(&offset.y)) {
            (Some(x), Some(y)) => {
                self.anchor_point = Position { x, y };
                true
            },
            _ => false,
        }
    }

    /// World position of a pixel; the pixel row must lie on the screen.
    pub fn from_px_to_units(&self, x: u32, y: u32) -> (r: Option<Position>)
        requires
            self.wf(),
            y <= SCREEN_SIZE,
        ensures
            r == px_to_units_spec(self.anchor_point, x, y),
            r matches Some(p) ==> p.wf(),
    {
        let qx = Q { num: x as i64, den: 1 };
        let qy = Q { num: (SCREEN_SIZE - y) as i64, den: 1 };
        match (qx.try_add(&self.anchor_point.x), qy.try_add(&self.anchor_point.y)) {
            (Some(px), Some(py)) => Some(Position { x: px, y: py }),
            _ => None,
        }
    }

    /// Pixel coordinates of a world position.
    pub fn from_units_to_px(&self, pos: Position) -> (r: Option<(u32, u32)>)
        requires
            self.wf(),
            pos.wf(),
        ensures
            r == units_to_px_spec(self.anchor_point, pos),
    {
        let dx = match pos.x.try_sub(&self.anchor_point.x) {
            Some(q) => q,
            None => {
                return None;
            },
        };
        let dy = match pos.y.try_sub(&self.anchor_point.y) {
            Some(q) => q,
            None => {
                return None;
            },
        };
        let px = dx.floor_clamp_u32();
        let t = dy.floor_clamp_u32();
        if t <= SCREEN_SIZE {
            Some((px, SCREEN_SIZE - t))
        } else {
            Some((px, 0))
        }
    }

    pub fn get_bbox(&self) -> (r: Rect)
        ensures
            r == self.bbox,
    {
        self.bbox
    }

    /// Pixel coordinates for drawing, only while the object's hitbox
    /// overlaps the viewport.
    pub fn drawing_coords(&self, position: Position, bbox: Rect) -> (r: Option<(u32, u32)>)
        requires
            self.wf(),
            position.wf(),
            bbox.wf(),
        ensures
            r == drawing_coords_spec(*self, position, bbox),
    {
        match self.bbox.intersects(self.anchor_point, bbox, position) {
            Some(true) => self.from_units_to_px(position),
            _ => None,
        }
    }
}

/// Law: inside the viewport the two transforms are exact inverses — mapping
/// a pixel into world units and back recovers the pixel.
pub proof fn lemma_pixel_round_trip(anchor: Position, x: u32, y: u32)
    requires
        anchor.wf(),
        y <= SCREEN_SIZE,
        x <= i64::MAX - 1,
    ensures
        px_to_units_spec(anchor, x, y) matches Some(p) ==> units_to_px_spec(anchor, p) == Some(
            (x, y),
        ),
{
    let o = px_to_units_spec(anchor, x, y);
    if o is Some {
        let p = o->Some_0;
        let qx = Q { num: x as i64, den: 1 };
        let qy = Q { num: (SCREEN_SIZE - y) as i64, den: 1 };
        lemma_round_trip_axis(anchor.x, qx);
        lemma_round_trip_axis(anchor.y, qy);
    }
}

/// One axis of the round trip: adding a whole number to the anchor and
/// subtracting the anchor again yields exactly that whole number.
proof fn lemma_round_trip_axis(a: Q, k: Q)
    requires
        a.wf(),
        k.wf(),
        k.den == 1,
        k.num < i64::MAX,
    ensures
        try_q_add(k, a) matches Some(s) ==> try_q_sub(s, a) == Some(
            Q { num: k.num, den: 1 },
        ) && s.wf(),
{
    let o = try_q_add(k, a);
    if o is Some {
        let s = o->Some_0;
        lemma_rat_ops_wf(k@, a@);
        lemma_norm_eq(rat_add(k@, a@));
        assert(rat_eq(s@, rat_add(k@, a@)));
        // the difference s - a denotes exactly the whole number k
        let raw = rat_sub(s@, a@);
        lemma_rat_ops_wf(s@, a@);
        assert(raw.n == k.num * raw.d) by (nonlinear_arith)
            requires
                raw.n == s@.n * a@.d - a@.n * s@.d,
                raw.d == s@.d * a@.d,
                s@.n * (k@.d * a@.d) == (k@.n * a@.d + a@.n * k@.d) * s@.d,
                k@.d == 1,
                k@.n == k.num,
                a@.d >= 1,
                s@.d >= 1,
        ;
        lemma_reduce_integer(k.num as int, raw);
        assert(rat_fits(rat_reduce(raw)));
        assert(q_norm_spec(raw) == Some(Q { num: k.num, den: 1 }));
    }
}

} // verus!
