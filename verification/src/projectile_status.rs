//! The free-flight body's interaction state machine: rest, held by the
//! pointer, or released into ballistic flight.

use vstd::prelude::*;

use crate::position::Position;
use crate::rational::try_q_sub;
use crate::vector::Vector;

verus! {

/// The projectile's interaction state.
#[derive(Clone, Copy, Debug, PartialEq, Eq, Structural)]
pub enum ProjectileStatus {
    Reset,
    Held(Position),
    Ballistic(Vector),
}

/// An input event for the projectile, at most one per tick.
#[derive(Clone, Copy, Debug, PartialEq, Eq, Structural)]
pub enum ProjectileTransition {
    Grabbed(Position),
    Released(Position),
    Reset,
}

/// The next interaction state: grab from rest, release from a hold into
/// flight with the pull-back displacement as velocity, reset from flight.
/// Any other pairing, and a release whose displacement cannot be stored, is
/// silently ignored.
pub open spec fn projectile_transition_spec(
    s: ProjectileStatus,
    t: ProjectileTransition,
) -> ProjectileStatus {
    match (s, t) {
        (ProjectileStatus::Reset, ProjectileTransition::Grabbed(pos)) => ProjectileStatus::Held(
            pos,
        ),
        (ProjectileStatus::Held(held), ProjectileTransition::Released(release)) => match (
            try_q_sub(held.x, release.x),
            try_q_sub(held.y, release.y),
        ) {
            (Some(x), Some(y)) => ProjectileStatus::Ballistic(Vector { x, y }),
            _ => s,
        },
        (ProjectileStatus::Ballistic(_), ProjectileTransition::Reset) => ProjectileStatus::Reset,
        _ => s,
    }
}

impl ProjectileStatus {
    pub open spec fn wf(&self) -> bool {
        match *self {
            ProjectileStatus::Reset => true,
            ProjectileStatus::Held(p) => p.wf(),
            ProjectileStatus::Ballistic(v) => v.wf(),
        }
    }

    /// Apply one input event.
    pub fn apply_transition(&mut self, transition: ProjectileTransition)
        requires
            old(self).wf(),
            match transition {
                ProjectileTransition::Grabbed(p) => p.wf(),
                ProjectileTransition::Released(p) => p.wf(),
                ProjectileTransition::Reset => true,
            },
        ensures
            *final(self) == projectile_transition_spec(*old(self), transition),
            final(self).wf(),
    {
        match (&*self, transition) {
            (Self::Reset, ProjectileTransition::Grabbed(pos)) => {
                *self = Self::Held(pos);
            },
            (Self::Held(held_pos), ProjectileTransition::Released(release_pos)) => {
                match Vector::between(release_pos, *held_pos) {
                    Some(v) => {
                        *self = Self::Ballistic(v);
                    },
                    None => {},
                }
            },
            (Self::Ballistic(_), ProjectileTransition::Reset) => {
                *self = Self::Reset;
            },
            _ => {},
        }
    }
}

} // verus!
