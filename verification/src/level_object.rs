//! Simulated bodies: hitboxes, kinds, per-level physics parameters, one
//! object's integration step, and the live level data.

use vstd::prelude::*;

use crate::constants::{threshold_velocity_q, time_step_q};
use crate::position::Position;
use crate::rational::{
    lemma_mul_sign_bound, lemma_norm_eq, lemma_rat_cmp_compat, lemma_rat_ops_wf, neg_q, rat_add,
    rat_int, rat_le, rat_lt, rat_mul, rat_neg, rat_sub, try_q_add, try_q_mul, try_q_sub, Q, Rat,
};
use crate::vector::{try_v_add, try_v_scale, RatV, Vector};

verus! {

/// The controllable body's look.
#[derive(Clone, Copy, Debug, PartialEq, Eq, Structural)]
pub enum Avatar {
    Normal,
    Longhorn,
    Dairy,
    Chocolate,
}

impl Avatar {
    pub fn get_hitbox(&self) -> (r: Rect)
        ensures
            r == (Rect { width: Q { num: 8, den: 1 }, height: Q { num: 8, den: 1 } }),
    {
        match self {
            _ => Rect::new(Q::from_int(8), Q::from_int(8)),
        }
    }

    pub fn get_mass(&self) -> (r: Q)
        ensures
            r == (Q { num: 10, den: 1 }),
    {
        match self {
            _ => Q::from_int(10),
        }
    }

    pub fn draw(&self, x: i32, y: i32) {
    }
}

/// An opposing body's look.
#[derive(Clone, Copy, Debug, PartialEq, Eq, Structural)]
pub enum EnemyAvatar {
    Farmer,
    Scarecrow,
}

impl EnemyAvatar {
    pub fn get_hitbox(&self) -> (r: Rect)
        ensures
            r == (Rect { width: Q { num: 8, den: 1 }, height: Q { num: 8, den: 1 } }),
    {
        match self {
            _ => Rect::new(Q::from_int(8), Q::from_int(8)),
        }
    }

    pub fn get_mass(&self) -> (r: Q)
        ensures
            r == (Q { num: 10, den: 1 }),
    {
        match self {
            _ => Q::from_int(10),
        }
    }
}

/// The closed set of body kinds a level may hold.
#[derive(Clone, Copy, Debug, PartialEq, Eq, Structural)]
pub enum LevelObjectKind {
    Box,
    Player(Avatar),
    Log { is_vertical: bool, length: Q },
    Enemy(EnemyAvatar),
}

/// The hitbox a kind yields: logs are 3 units thick and `length` units long
/// along their axis; every other body is an 8-by-8 square.
pub open spec fn kind_hitbox(k: LevelObjectKind) -> Rect {
    match k {
        LevelObjectKind::Box => Rect {
            width: Q { num: 8, den: 1 },
            height: Q { num: 8, den: 1 },
        },
        LevelObjectKind::Player(_) => Rect {
            width: Q { num: 8, den: 1 },
            height: Q { num: 8, den: 1 },
        },
        LevelObjectKind::Log { is_vertical: true, length } => Rect {
            width: Q { num: 3, den: 1 },
            height: length,
        },
        LevelObjectKind::Log { is_vertical: false, length } => Rect {
            width: length,
            height: Q { num: 3, den: 1 },
        },
        LevelObjectKind::Enemy(_) => Rect {
            width: Q { num: 8, den: 1 },
            height: Q { num: 8, den: 1 },
        },
    }
}

/// The mass a kind yields: a box weighs 1, a log its length, avatars 10.
pub open spec fn kind_mass(k: LevelObjectKind) -> Q {
    match k {
        LevelObjectKind::Box => Q { num: 1, den: 1 },
        LevelObjectKind::Log { length, .. } => length,
        LevelObjectKind::Player(_) => Q { num: 10, den: 1 },
        LevelObjectKind::Enemy(_) => Q { num: 10, den: 1 },
    }
}

pub open spec fn kind_wf(k: LevelObjectKind) -> bool {
    match k {
        LevelObjectKind::Log { length, .. } => length.wf(),
        _ => true,
    }
}

impl LevelObjectKind {
    pub fn get_hitbox(&self) -> (r: Rect)
        ensures
            r == kind_hitbox(*self),
    {
        match self {
            Self::Box => Rect { width: Q::from_int(8), height: Q::from_int(8) },
            Self::Player(avatar) => avatar.get_hitbox(),
            Self::Log { is_vertical: true, length } => Rect::new(Q::from_int(3), *length),
            Self::Log { is_vertical: false, length } => Rect::new(*length, Q::from_int(3)),
            Self::Enemy(e_avatar) => e_avatar.get_hitbox(),
        }
    }

    pub fn get_mass(&self) -> (r: Q)
        ensures
            r == kind_mass(*self),
    {
        match self {
            Self::Box => Q::from_int(1),
            Self::Log { length, .. } => *length,
            Self::Player(avatar) => avatar.get_mass(),
            Self::Enemy(e_avatar) => e_avatar.get_mass(),
        }
    }
}

/// An axis-aligned hitbox: size only, anchored at an externally supplied
/// position.
#[derive(Clone, Copy, Debug, PartialEq, Eq, Structural)]
pub struct Rect {
    pub width: Q,
    pub height: Q,
}

/// Strict axis-aligned overlap of two rectangles anchored at `pa` and `pb`:
/// touching edges do not count.
pub open spec fn intersects_spec(a: Rect, pa: RatV, b: Rect, pb: RatV) -> bool {
    &&& rat_lt(pb.x, rat_add(pa.x, a.width@))
    &&& rat_lt(pa.x, rat_add(pb.x, b.width@))
    &&& rat_lt(pb.y, rat_add(pa.y, a.height@))
    &&& rat_lt(pa.y, rat_add(pb.y, b.height@))
}

/// The overlap test as computed: `None` when a corner sum cannot be stored.
pub open spec fn try_intersects(a: Rect, pa: Position, b: Rect, pb: Position) -> Option<bool> {
    match (
        try_q_add(pa.x, a.width),
        try_q_add(pb.x, b.width),
        try_q_add(pa.y, a.height),
        try_q_add(pb.y, b.height),
    ) {
        (Some(sax), Some(sbx), Some(say), Some(sby)) => Some(
            rat_lt(pb.x@, sax@) && rat_lt(pa.x@, sbx@) && rat_lt(pb.y@, say@) && rat_lt(
                pa.y@,
                sby@,
            ),
        ),
        _ => None,
    }
}

impl Rect {
    pub open spec fn wf(&self) -> bool {
        self.width.wf() && self.height.wf()
    }

    pub fn new(width: Q, height: Q) -> (r: Rect)
        ensures
            r == (Rect { width, height }),
    {
        Rect { width, height }
    }

    /// Strict overlap test; `None` when a corner sum cannot be stored.
    pub fn intersects(&self, self_position: Position, other: Rect, other_position: Position) -> (r:
        Option<bool>)
        requires
            self.wf(),
            other.wf(),
            self_position.wf(),
            other_position.wf(),
        ensures
            r == try_intersects(*self, self_position, other, other_position),
            r matches Some(b) ==> b == intersects_spec(
                *self,
                self_position@,
                other,
                other_position@,
            ),
    {
        let sax = match self_position.x.try_add(&self.width) {
            Some(q) => q,
            None => {
                return None;
            },
        };
        let sbx = match other_position.x.try_add(&other.width) {
            Some(q) => q,
            None => {
                return None;
            },
        };
        let say = match self_position.y.try_add(&self.height) {
            Some(q) => q,
            None => {
                return None;
            },
        };
        let sby = match other_position.y.try_add(&other.height) {
            Some(q) => q,
            None => {
                return None;
            },
        };
        proof {
            lemma_rat_ops_wf(self_position.x@, self.width@);
            lemma_rat_ops_wf(other_position.x@, other.width@);
            lemma_rat_ops_wf(self_position.y@, self.height@);
            lemma_rat_ops_wf(other_position.y@, other.height@);
            lemma_norm_eq(rat_add(self_position.x@, self.width@));
            lemma_norm_eq(rat_add(other_position.x@, other.width@));
            lemma_norm_eq(rat_add(self_position.y@, self.height@));
            lemma_norm_eq(rat_add(other_position.y@, other.height@));
            lemma_rat_cmp_compat(sax@, rat_add(self_position.x@, self.width@), other_position.x@);
            lemma_rat_cmp_compat(sbx@, rat_add(other_position.x@, other.width@), self_position.x@);
            lemma_rat_cmp_compat(say@, rat_add(self_position.y@, self.height@), other_position.y@);
            lemma_rat_cmp_compat(sby@, rat_add(other_position.y@, other.height@), self_position.y@);
        }
        Some(
            other_position.x.lt(&sax) && self_position.x.lt(&sbx) && other_position.y.lt(&say)
                && self_position.y.lt(&sby),
        )
    }
}

/// Law: the overlap test is symmetric in its two rectangle/position pairs.
pub proof fn lemma_intersects_symmetric(a: Rect, pa: RatV, b: Rect, pb: RatV)
    ensures
        intersects_spec(a, pa, b, pb) == intersects_spec(b, pb, a, pa),
{
}

/// Per-level constant physics parameters.
#[derive(Clone, Copy, Debug, PartialEq, Eq, Structural)]
pub struct Physics {
    pub gravity: Vector,
    pub bounce_damping_factor: Q,
    pub friction_damping_factor: Q,
    pub collision_damping_factor: Q,
}

impl Physics {
    pub open spec fn wf(&self) -> bool {
        &&& self.gravity.wf()
        &&& self.bounce_damping_factor.wf()
        &&& self.friction_damping_factor.wf()
        &&& self.collision_damping_factor.wf()
    }
}

/// The stock physics parameters.
pub open spec fn default_physics() -> Physics {
    Physics {
        gravity: crate::constants::gravity_q(),
        bounce_damping_factor: crate::constants::bounce_damping_factor_q(),
        friction_damping_factor: crate::constants::friction_damping_factor_q(),
        collision_damping_factor: crate::constants::collision_damping_factor_q(),
    }
}

impl Default for Physics {
    fn default() -> (r: Self)
        ensures
            r == default_physics(),
            r.wf(),
    {
        Physics {
            gravity: crate::constants::gravity(),
            bounce_damping_factor: crate::constants::bounce_damping_factor(),
            friction_damping_factor: crate::constants::friction_damping_factor(),
            collision_damping_factor: crate::constants::collision_damping_factor(),
        }
    }
}

/// One simulated body: its kind, position and velocity.
#[derive(Clone, Copy, Debug, PartialEq, Eq, Structural)]
pub struct LevelObject {
    pub kind: LevelObjectKind,
    pub position: Position,
    pub velocity: Vector,
}

/// Floor handling after integration: a body at or below `y = 0` is set on
/// the floor; a downward vertical speed is reflected and damped, and zeroed
/// when the damped speed is below the threshold.
pub open spec fn floor_resolve(p1: Position, v1: Vector, bounce: Q) -> Option<
    (Position, Vector),
> {
    if rat_le(p1.y@, rat_int(0)) {
        let p2 = Position { x: p1.x, y: Q { num: 0, den: 1 } };
        if rat_lt(v1.y@, rat_int(0)) {
            match try_q_sub(Q { num: 1, den: 1 }, bounce) {
                Some(omb) => match try_q_mul(v1.y, neg_q(omb)) {
                    Some(vy2) => if rat_lt(vy2@, threshold_velocity_q()@) {
                        Some((p2, Vector { x: v1.x, y: Q { num: 0, den: 1 } }))
                    } else {
                        Some((p2, Vector { x: v1.x, y: vy2 }))
                    },
                    None => None,
                },
                None => None,
            }
        } else {
            Some((p2, v1))
        }
    } else {
        Some((p1, v1))
    }
}

/// One object's whole integration tick: gravity into the velocity, the
/// velocity into the position, then the floor; `None` when a result cannot
/// be stored, in which case the object is left as it was.
pub open spec fn try_step_object(o: LevelObject, ph: Physics) -> Option<LevelObject> {
    match try_v_scale(ph.gravity, time_step_q()) {
        Some(dv) => match try_v_add(o.velocity, dv) {
            Some(v1) => match try_v_scale(v1, time_step_q()) {
                Some(dp) => match (try_q_add(o.position.x, dp.x), try_q_add(o.position.y, dp.y)) {
                    (Some(px), Some(py)) => match floor_resolve(
                        Position { x: px, y: py },
                        v1,
                        ph.bounce_damping_factor,
                    ) {
                        Some(pv) => Some(
                            LevelObject { kind: o.kind, position: pv.0, velocity: pv.1 },
                        ),
                        None => None,
                    },
                    _ => None,
                },
                None => None,
            },
            None => None,
        },
        None => None,
    }
}

/// The object after its tick, unchanged where the tick cannot be stored.
pub open spec fn stepped_object(o: LevelObject, ph: Physics) -> LevelObject {
    match try_step_object(o, ph) {
        Some(o2) => o2,
        None => o,
    }
}

impl LevelObject {
    pub open spec fn wf(&self) -> bool {
        &&& kind_wf(self.kind)
        &&& self.position.wf()
        &&& self.velocity.wf()
    }

    pub fn new(kind: LevelObjectKind, position: Position, velocity: Vector) -> (r: LevelObject)
        ensures
            r == (LevelObject { kind, position, velocity }),
    {
        LevelObject { kind, position, velocity }
    }

    /// Advance this body by one fixed tick under the given physics; on a
    /// result that cannot be stored the body is left as it was and `false`
    /// comes back.
    pub fn step_physics(&mut self, physics: Physics) -> (ok: bool)
        requires
            old(self).wf(),
            physics.wf(),
        ensures
            *final(self) == stepped_object(*old(self), physics),
            ok == (try_step_object(*old(self), physics) is Some),
            final(self).wf(),
            final(self).kind == old(self).kind,
    {
        let dv = match physics.gravity.try_scale(&crate::constants::time_step()) {
            Some(v) => v,
            None => {
                return false;
            },
        };
        let v1 = match self.velocity.try_add(&dv) {
            Some(v) => v,
            None => {
                return false;
            },
        };
        let dp = match v1.try_scale(&crate::constants::time_step()) {
            Some(v) => v,
            None => {
                return false;
            },
        };
        let px = match self.position.x.try_add(&dp.x) {
            Some(q) => q,
            None => {
                return false;
            },
        };
        let py = match self.position.y.try_add(&dp.y) {
            Some(q) => q,
            None => {
                return false;
            },
        };
        let zero = Q::zero();
        if py.le(&zero) {
            if v1.y.lt(&zero) {
                let omb = match Q::from_int(1).try_sub(&physics.bounce_damping_factor) {
                    Some(q) => q,
                    None => {
                        return false;
                    },
                };
                let vy2 = match v1.y.try_mul(&omb.neg()) {
                    Some(q) => q,
                    None => {
                        return false;
                    },
                };
                let vy = if vy2.lt(&crate::constants::threshold_velocity()) {
                    Q::zero()
                } else {
                    vy2
                };
                self.position = Position { x: px, y: Q::zero() };
                self.velocity = Vector { x: v1.x, y: vy };
            } else {
                self.position = Position { x: px, y: Q::zero() };
                self.velocity = v1;
            }
        } else {
            self.position = Position { x: px, y: py };
            self.velocity = v1;
        }
        true
    }

    /// Reflect and damp the vertical speed: `v.y := -v.y * (1 - factor)`.
    /// On a result that cannot be stored the body is left as it was.
    pub fn bounce(&mut self, bounce_damping_factor: Q) -> (ok: bool)
        requires
            old(self).wf(),
            bounce_damping_factor.wf(),
        ensures
            ({
                let vy = try_bounce(old(self).velocity.y, bounce_damping_factor);
                &&& ok == (vy is Some)
                &&& ok ==> *final(self) == (LevelObject {
                    velocity: Vector { x: old(self).velocity.x, y: vy->Some_0 },
                    ..*old(self)
                })
                &&& !ok ==> *final(self) == *old(self)
            }),
            final(self).wf(),
    {
        let omb = match Q::from_int(1).try_sub(&bounce_damping_factor) {
            Some(q) => q,
            None => {
                return false;
            },
        };
        let vy = match self.velocity.y.neg().try_mul(&omb) {
            Some(q) => q,
            None => {
                return false;
            },
        };
        self.velocity = Vector { x: self.velocity.x, y: vy };
        true
    }

    /// Whether this body's hitbox strictly overlaps the other's.
    pub fn collides_with(&self, other: &LevelObject) -> (r: Option<bool>)
        requires
            self.wf(),
            other.wf(),
        ensures
            r == try_intersects(
                kind_hitbox(self.kind),
                self.position,
                kind_hitbox(other.kind),
                other.position,
            ),
            r matches Some(b) ==> b == intersects_spec(
                kind_hitbox(self.kind),
                self.position@,
                kind_hitbox(other.kind),
                other.position@,
            ),
    {
        self.kind.get_hitbox().intersects(self.position, other.kind.get_hitbox(), other.position)
    }
}

/// The damped reflected vertical speed `-vy * (1 - factor)`, where it can be
/// stored.
pub open spec fn try_bounce(vy: Q, factor: Q) -> Option<Q> {
    match try_q_sub(Q { num: 1, den: 1 }, factor) {
        Some(omb) => try_q_mul(neg_q(vy), omb),
        None => None,
    }
}

/// One level's definition: its number, its bodies, and its physics.
#[derive(Clone, Debug)]
pub struct LevelData {
    pub number: u8,
    pub objects: Vec<LevelObject>,
    pub physics: Physics,
}

pub open spec fn is_player(o: LevelObject) -> bool {
    o.kind is Player
}

/// Index of the first player-controlled body, if any.
pub open spec fn player_index_spec(s: Seq<LevelObject>) -> Option<int>
    decreases s.len(),
{
    if s.len() == 0 {
        None
    } else if is_player(s[0]) {
        Some(0int)
    } else {
        match player_index_spec(s.subrange(1, s.len() as int)) {
            Some(i) => Some(i + 1),
            None => None,
        }
    }
}

/// A scan that finds a player at `i` past non-players finds the first one.
proof fn lemma_player_index_found(s: Seq<LevelObject>, i: int)
    requires
        0 <= i < s.len(),
        is_player(s[i]),
        forall|j: int| 0 <= j < i ==> !is_player(#[trigger] s[j]),
    ensures
        player_index_spec(s) == Some(i),
    decreases i,
{
    if i == 0 {
    } else {
        let tail = s.subrange(1, s.len() as int);
        lemma_player_index_found(tail, i - 1);
    }
}

/// A scan that finds no player leaves none to find.
proof fn lemma_player_index_none(s: Seq<LevelObject>)
    requires
        forall|j: int| 0 <= j < s.len() ==> !is_player(#[trigger] s[j]),
    ensures
        player_index_spec(s) is None,
    decreases s.len(),
{
    if s.len() > 0 {
        let tail = s.subrange(1, s.len() as int);
        lemma_player_index_none(tail);
    }
}

/// What the first player index means.
pub proof fn lemma_player_index_props(s: Seq<LevelObject>)
    ensures
        player_index_spec(s) matches Some(i) ==> 0 <= i < s.len() && is_player(s[i]),
        player_index_spec(s) is None ==> forall|j: int|
            0 <= j < s.len() ==> !is_player(#[trigger] s[j]),
    decreases s.len(),
{
    if s.len() > 0 && !is_player(s[0]) {
        let tail = s.subrange(1, s.len() as int);
        lemma_player_index_props(tail);
        if player_index_spec(s) is None {
            assert forall|j: int| 0 <= j < s.len() implies !is_player(#[trigger] s[j]) by {
                if j > 0 {
                    assert(s[j] == tail[j - 1]);
                }
            }
        }
    }
}

impl LevelData {
    pub open spec fn wf(&self) -> bool {
        &&& self.physics.wf()
        &&& forall|i: int| 0 <= i < self.objects@.len() ==> (#[trigger] self.objects@[i]).wf()
    }

    pub fn new(number: u8, objects: Vec<LevelObject>, physics: Physics) -> (r: LevelData)
        ensures
            r.number == number,
            r.objects == objects,
            r.physics == physics,
    {
        LevelData { number, objects, physics }
    }

    /// Advance every body by one fixed tick; a body whose tick cannot be
    /// stored is left as it was.
    pub fn step_physics(&mut self)
        requires
            old(self).wf(),
        ensures
            final(self).number == old(self).number,
            final(self).physics == old(self).physics,
            final(self).objects@ == old(self).objects@.map_values(
                |o: LevelObject| stepped_object(o, old(self).physics),
            ),
            final(self).wf(),
    {
        let n = self.objects.len();
        let mut i: usize = 0;
        while i < n
            invariant
                i <= n,
                n == self.objects@.len(),
                n == old(self).objects@.len(),
                self.physics == old(self).physics,
                self.number == old(self).number,
                old(self).wf(),
                forall|j: int|
                    0 <= j < i ==> #[trigger] self.objects@[j] == stepped_object(
                        old(self).objects@[j],
                        old(self).physics,
                    ) && self.objects@[j].wf(),
                forall|j: int| i <= j < n ==> self.objects@[j] == old(self).objects@[j],
            decreases n - i,
        {
            let mut obj = self.objects[i];
            proof {
                assert(obj == old(self).objects@[i as int]);
            }
            obj.step_physics(self.physics);
            self.objects[i] = obj;
            i += 1;
        }
        proof {
            assert(self.objects@ =~= old(self).objects@.map_values(
                |o: LevelObject| stepped_object(o, old(self).physics),
            ));
        }
    }

    /// Index of the first player-controlled body.
    pub fn player_index(&self) -> (r: Option<usize>)
        ensures
            match r {
                Some(i) => player_index_spec(self.objects@) == Some(i as int),
                None => player_index_spec(self.objects@) is None,
            },
    {
        let n = self.objects.len();
        let mut i: usize = 0;
        while i < n
            invariant
                i <= n,
                n == self.objects@.len(),
                forall|j: int| 0 <= j < i ==> !is_player(#[trigger] self.objects@[j]),
            decreases n - i,
        {
            let found = match self.objects[i].kind {
                LevelObjectKind::Player(_) => true,
                _ => false,
            };
            if found {
                proof {
                    lemma_player_index_found(self.objects@, i as int);
                }
                return Some(i);
            }
            i += 1;
        }
        proof {
            lemma_player_index_none(self.objects@);
        }
        None
    }

    /// A copy of this level, field for field.
    pub fn duplicate(&self) -> (r: LevelData)
        ensures
            r.number == self.number,
            r.physics == self.physics,
            r.objects@ == self.objects@,
    {
        LevelData {
            number: self.number,
            objects: copy_objects(&self.objects),
            physics: self.physics,
        }
    }

    /// The first player-controlled body, if any.
    pub fn get_player_object(&self) -> (r: Option<&LevelObject>)
        ensures
            match r {
                Some(o) => player_index_spec(self.objects@) matches Some(i) && *o
                    == self.objects@[i],
                None => player_index_spec(self.objects@) is None,
            },
    {
        proof {
            lemma_player_index_props(self.objects@);
        }
        match self.player_index() {
            Some(i) => Some(&self.objects[i]),
            None => None,
        }
    }
}

/// An element-for-element copy of a body list.
pub(crate) fn copy_objects(src: &Vec<LevelObject>) -> (r: Vec<LevelObject>)
    ensures
        r@ == src@,
{
    let mut out: Vec<LevelObject> = Vec::new();
    let n = src.len();
    let mut i: usize = 0;
    while i < n
        invariant
            i <= n,
            n == src@.len(),
            out@ == src@.subrange(0, i as int),
        decreases n - i,
    {
        out.push(src[i]);
        proof {
            assert(out@ =~= src@.subrange(0, i as int + 1));
        }
        i += 1;
    }
    proof {
        assert(out@ =~= src@);
    }
    out
}

/// The controllable body's interaction state. `Reset` carries the pristine
/// position it stands at; `Held` the current drag position; `Ballistic` the
/// release velocity.
#[derive(Clone, Copy, Debug, PartialEq, Eq, Structural)]
pub enum PlayerStatus {
    Reset(Position),
    Held(Position),
    Ballistic(Vector),
}

/// An input event for the controllable body, at most one per tick.
#[derive(Clone, Copy, Debug, PartialEq, Eq, Structural)]
pub enum PlayerTransition {
    Grabbed(Position),
    Released(Position),
    Reset,
}

/// The next interaction state: grab from rest, release from a hold into
/// ballistic flight with the pull-back displacement as velocity, or return
/// to rest at the pristine position. Any other pairing, and a release whose
/// displacement cannot be stored, is silently ignored.
pub open spec fn apply_transition_spec(
    s: PlayerStatus,
    t: PlayerTransition,
    pristine: Position,
) -> PlayerStatus {
    match (s, t) {
        (PlayerStatus::Reset(_), PlayerTransition::Grabbed(pos)) => PlayerStatus::Held(pos),
        (PlayerStatus::Held(held), PlayerTransition::Released(release)) => match (
            try_q_sub(held.x, release.x),
            try_q_sub(held.y, release.y),
        ) {
            (Some(x), Some(y)) => PlayerStatus::Ballistic(Vector { x, y }),
            _ => s,
        },
        (PlayerStatus::Ballistic(_), PlayerTransition::Reset) => PlayerStatus::Reset(pristine),
        _ => s,
    }
}

impl PlayerStatus {
    pub open spec fn wf(&self) -> bool {
        match *self {
            PlayerStatus::Reset(p) => p.wf(),
            PlayerStatus::Held(p) => p.wf(),
            PlayerStatus::Ballistic(v) => v.wf(),
        }
    }

    /// Apply one input event; `pristine` is the position the body returns to
    /// on a reset.
    pub fn apply_transition(&mut self, transition: PlayerTransition, pristine: Position)
        requires
            old(self).wf(),
            transition_wf(transition),
            pristine.wf(),
        ensures
            *final(self) == apply_transition_spec(*old(self), transition, pristine),
            final(self).wf(),
    {
        match (&*self, transition) {
            (Self::Reset(_), PlayerTransition::Grabbed(pos)) => {
                *self = Self::Held(pos);
            },
            (Self::Held(held_pos), PlayerTransition::Released(release_pos)) => {
                match Vector::between(release_pos, *held_pos) {
                    Some(v) => {
                        *self = Self::Ballistic(v);
                    },
                    None => {},
                }
            },
            (Self::Ballistic(_), PlayerTransition::Reset) => {
                *self = Self::Reset(pristine);
            },
            _ => {},
        }
    }
}

pub open spec fn transition_wf(t: PlayerTransition) -> bool {
    match t {
        PlayerTransition::Grabbed(p) => p.wf(),
        PlayerTransition::Released(p) => p.wf(),
        PlayerTransition::Reset => true,
    }
}

/// Law: releasing a held body and then resetting the ballistic body lands
/// the status back at rest at the pristine position, whatever velocity the
/// release imparted.
pub proof fn lemma_transition_round_trip(
    held: Position,
    release: Position,
    pristine: Position,
    s1: PlayerStatus,
    s2: PlayerStatus,
)
    requires
        s1 == apply_transition_spec(
            PlayerStatus::Held(held),
            PlayerTransition::Released(release),
            pristine,
        ),
        s1 is Ballistic,
        s2 == apply_transition_spec(s1, PlayerTransition::Reset, pristine),
    ensures
        s2 == PlayerStatus::Reset(pristine),
{
}

/// Law: a body that ends its tick at or below the floor with downward speed
/// leaves the tick sitting on the floor (`y = 0`) with a vertical speed that
/// is not negative and no faster than the speed it arrived with.
pub proof fn lemma_floor_bounce(p1: Position, v1: Vector, bounce: Q)
    requires
        p1.wf(),
        v1.wf(),
        bounce.wf(),
        rat_le(p1.y@, rat_int(0)),
        rat_lt(v1.y@, rat_int(0)),
        rat_le(rat_int(0), bounce@),
        rat_le(bounce@, rat_int(1)),
    ensures
        floor_resolve(p1, v1, bounce) matches Some(pv) ==> {
            &&& pv.0.y@ == rat_int(0)
            &&& rat_le(rat_int(0), pv.1.y@)
            &&& rat_le(pv.1.y@, rat_neg(v1.y@))
        },
{
    let o = floor_resolve(p1, v1, bounce);
    if o is Some {
        let one = Rat { n: 1, d: 1 };
        let omb = try_q_sub(Q { num: 1, den: 1 }, bounce)->Some_0;
        lemma_rat_ops_wf(one, bounce@);
        lemma_norm_eq(rat_sub(one, bounce@));
        let f = rat_neg(omb@);
        assert(rat_le(rat_int(0), rat_sub(one, bounce@)));
        assert(rat_le(rat_sub(one, bounce@), one));
        lemma_rat_cmp_compat(omb@, rat_sub(one, bounce@), rat_int(0));
        lemma_rat_cmp_compat(omb@, rat_sub(one, bounce@), one);
        assert(rat_le(rat_neg(rat_int(1)), f));
        assert(rat_le(f, rat_int(0)));
        lemma_mul_sign_bound(v1.y@, f);
        let vy2o = try_q_mul(v1.y, neg_q(omb));
        if vy2o is Some {
            let vy2 = vy2o->Some_0;
            lemma_rat_ops_wf(v1.y@, f);
            lemma_norm_eq(rat_mul(v1.y@, f));
            assert(neg_q(omb)@ == f);
            lemma_rat_cmp_compat(vy2@, rat_mul(v1.y@, f), rat_int(0));
            lemma_rat_cmp_compat(vy2@, rat_mul(v1.y@, f), rat_neg(v1.y@));
        }
    }
}

} // verus!
