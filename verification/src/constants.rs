//! Fixed parameters of the simulation and of the input/display layout.

use vstd::prelude::*;

use crate::position::Position;
use crate::rational::Q;
use crate::vector::Vector;

verus! {

/// Side length of the square display, in pixels.
pub const SCREEN_SIZE: u32 = 160;

pub const BUTTON_1: u8 = 1;

pub const BUTTON_2: u8 = 2;

pub const BUTTON_LEFT: u8 = 16;

pub const BUTTON_RIGHT: u8 = 32;

pub const BUTTON_UP: u8 = 64;

pub const BUTTON_DOWN: u8 = 128;

pub const MOUSE_LEFT: u8 = 1;

pub const MOUSE_RIGHT: u8 = 2;

pub const MOUSE_MIDDLE: u8 = 4;

/// One tick of simulated time: 1/60 second.
pub open spec fn time_step_q() -> Q {
    Q { num: 1, den: 60 }
}

pub fn time_step() -> (r: Q)
    ensures
        r == time_step_q(),
        r.wf(),
{
    Q { num: 1, den: 60 }
}

/// Share of vertical speed lost on each floor bounce: 0.35.
pub open spec fn bounce_damping_factor_q() -> Q {
    Q { num: 7, den: 20 }
}

pub fn bounce_damping_factor() -> (r: Q)
    ensures
        r == bounce_damping_factor_q(),
        r.wf(),
{
    Q { num: 7, den: 20 }
}

/// Share of speed lost to friction: 0.05 (reserved, unused by integration).
pub open spec fn friction_damping_factor_q() -> Q {
    Q { num: 1, den: 20 }
}

pub fn friction_damping_factor() -> (r: Q)
    ensures
        r == friction_damping_factor_q(),
        r.wf(),
{
    Q { num: 1, den: 20 }
}

/// Share of horizontal speed lost in a damped collision: 0.05.
pub open spec fn collision_damping_factor_q() -> Q {
    Q { num: 1, den: 20 }
}

pub fn collision_damping_factor() -> (r: Q)
    ensures
        r == collision_damping_factor_q(),
        r.wf(),
{
    Q { num: 1, den: 20 }
}

/// Vertical speed below which residual bounce energy is zeroed: 0.001.
pub open spec fn threshold_velocity_q() -> Q {
    Q { num: 1, den: 1000 }
}

pub fn threshold_velocity() -> (r: Q)
    ensures
        r == threshold_velocity_q(),
        r.wf(),
{
    Q { num: 1, den: 1000 }
}

/// Default gravity: straight down at 50 world units per second squared.
pub open spec fn gravity_q() -> Vector {
    Vector { x: Q { num: 0, den: 1 }, y: Q { num: -50i64, den: 1 } }
}

pub fn gravity() -> (r: Vector)
    ensures
        r == gravity_q(),
        r.wf(),
{
    Vector { x: Q { num: 0, den: 1 }, y: Q { num: -50i64, den: 1 } }
}

/// The world-space origin.
pub open spec fn origin_q() -> Position {
    Position { x: Q { num: 0, den: 1 }, y: Q { num: 0, den: 1 } }
}

pub fn origin() -> (r: Position)
    ensures
        r == origin_q(),
        r.wf(),
{
    Position { x: Q { num: 0, den: 1 }, y: Q { num: 0, den: 1 } }
}

/// Radius of a round projectile body, in world units.
pub open spec fn radius_q() -> Q {
    Q { num: 15, den: 1 }
}

pub fn radius() -> (r: Q)
    ensures
        r == radius_q(),
        r.wf(),
{
    Q { num: 15, den: 1 }
}

} // verus!
