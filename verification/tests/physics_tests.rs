use slingshot::ball::Ball;
use slingshot::level_object::{Avatar, LevelObject, LevelObjectKind, Physics, Rect};
use slingshot::position::Position;
use slingshot::projectile::Projectile;
use slingshot::rational::Q;
use slingshot::vector::Vector;

fn q(num: i64, den: i64) -> Q {
    Q::new(num, den).unwrap()
}

fn v(x: i64, y: i64) -> Vector {
    Vector::new(Q::from_int(x), Q::from_int(y))
}

fn p(x: i64, y: i64) -> Position {
    Position::new(Q::from_int(x), Q::from_int(y))
}

#[test]
fn closed_form_ballistic_flight() {
    // from the origin at (10,10) under (0,-1): ten seconds later the ball
    // sits at (100,50) moving (10,0)
    let mut ball = Ball::new(p(0, 0), v(10, 10), Q::from_int(15));
    assert!(ball.mv(v(0, -1), Q::from_int(10)));
    assert_eq!(ball.get_position(), p(100, 50));
    assert_eq!(ball.get_velocity(), v(10, 0));
}

#[test]
fn stepped_flight_tracks_the_closed_form() {
    // 600 ticks of 1/60 s match the closed form to within the one-step
    // discretization error
    let mut body = Projectile { mass: Q::from_int(1), position: p(0, 0), velocity: v(10, 10), object: () };
    let dt = q(1, 60);
    let accel = v(0, -1);
    for _ in 0..600 {
        assert!(body.ballistic_step(accel, dt));
    }
    assert_eq!(body.velocity, v(10, 0));
    assert_eq!(body.position.x, Q::from_int(100));
    // position stepping leads the velocity by one tick: y = 50 + 1/12
    assert_eq!(body.position.y, q(601, 12));
    let error = body.position.y.try_sub(&Q::from_int(50)).unwrap();
    assert!(error.le(&q(1, 10)));
    assert!(Q::from_int(0).le(&error));
}

#[test]
fn integration_applies_gravity_then_moves() {
    // one tick under gravity (0,-60): velocity gains (0,-1), position moves
    // by the new velocity over 1/60 s
    let physics = Physics {
        gravity: v(0, -60),
        bounce_damping_factor: q(7, 20),
        friction_damping_factor: q(1, 20),
        collision_damping_factor: q(1, 20),
    };
    let mut obj = LevelObject::new(LevelObjectKind::Box, p(0, 6), v(6, 0));
    assert!(obj.step_physics(physics));
    assert_eq!(obj.velocity, v(6, -1));
    assert_eq!(obj.position, Position::new(q(1, 10), q(359, 60)));
}

#[test]
fn floor_bounce_damps_and_reflects() {
    // a body driven through the floor leaves the tick on the floor with a
    // reduced upward speed
    let physics = Physics {
        gravity: v(0, 0),
        bounce_damping_factor: q(7, 20),
        friction_damping_factor: q(1, 20),
        collision_damping_factor: q(1, 20),
    };
    let mut obj = LevelObject::new(LevelObjectKind::Player(Avatar::Normal), p(0, 0), v(0, -60));
    assert!(obj.step_physics(physics));
    assert_eq!(obj.position.y, Q::from_int(0));
    // -(-60) * (1 - 7/20) = 39, upward and slower than 60
    assert_eq!(obj.velocity.y, Q::from_int(39));
}

#[test]
fn floor_bounce_zeroes_below_threshold() {
    let physics = Physics {
        gravity: v(0, 0),
        bounce_damping_factor: q(7, 20),
        friction_damping_factor: q(1, 20),
        collision_damping_factor: q(1, 20),
    };
    // damped rebound of 13/26000 = 1/2000 lies below the 1/1000 threshold
    let mut obj = LevelObject::new(
        LevelObjectKind::Box,
        p(0, 0),
        Vector::new(Q::from_int(0), q(-10, 13000)),
    );
    assert!(obj.step_physics(physics));
    assert_eq!(obj.position.y, Q::from_int(0));
    assert_eq!(obj.velocity.y, Q::from_int(0));
}

#[test]
fn explicit_bounce_reflects_vertical_speed() {
    let mut obj = LevelObject::new(LevelObjectKind::Box, p(0, 0), v(3, -8));
    assert!(obj.bounce(q(1, 4)));
    assert_eq!(obj.velocity, Vector::new(Q::from_int(3), Q::from_int(6)));
}

#[test]
fn elastic_projectile_exchange_negates_momenta() {
    let mut a = Projectile { mass: Q::from_int(2), position: p(0, 0), velocity: v(4, 2), object: 1u8 };
    let mut b = Projectile { mass: Q::from_int(4), position: p(10, 0), velocity: v(-1, 0), object: 2u8 };
    assert!(a.collide(&mut b, slingshot::projectile::CollisionKind::Elastic));
    // a takes -(m_b * v_b) / m_a, b takes -(m_a * v_a) / m_b
    assert_eq!(a.velocity, v(2, 0));
    assert_eq!(b.velocity, v(-2, -1));
    assert_eq!(a.position, p(0, 0));
    assert_eq!(b.position, p(10, 0));
}

#[test]
fn hitboxes_and_masses_by_kind() {
    let log = LevelObjectKind::Log { is_vertical: true, length: Q::from_int(12) };
    assert_eq!(log.get_hitbox(), Rect::new(Q::from_int(3), Q::from_int(12)));
    assert_eq!(log.get_mass(), Q::from_int(12));
    let flat = LevelObjectKind::Log { is_vertical: false, length: Q::from_int(9) };
    assert_eq!(flat.get_hitbox(), Rect::new(Q::from_int(9), Q::from_int(3)));
    assert_eq!(LevelObjectKind::Box.get_mass(), Q::from_int(1));
    assert_eq!(LevelObjectKind::Player(Avatar::Dairy).get_mass(), Q::from_int(10));
    assert_eq!(
        LevelObjectKind::Player(Avatar::Longhorn).get_hitbox(),
        Rect::new(Q::from_int(8), Q::from_int(8))
    );
}

#[test]
fn intersects_is_strict_and_symmetric() {
    let r1 = Rect::new(Q::from_int(8), Q::from_int(8));
    let r2 = Rect::new(Q::from_int(8), Q::from_int(8));
    // touching edges do not count
    assert_eq!(r1.intersects(p(0, 0), r2, p(8, 0)), Some(false));
    // a one-unit overlap does
    assert_eq!(r1.intersects(p(0, 0), r2, p(7, 0)), Some(true));
    assert_eq!(r2.intersects(p(7, 0), r1, p(0, 0)), Some(true));
    let o1 = LevelObject::new(LevelObjectKind::Box, p(0, 0), v(0, 0));
    let o2 = LevelObject::new(LevelObjectKind::Box, p(7, 3), v(0, 0));
    assert_eq!(o1.collides_with(&o2), o2.collides_with(&o1));
    assert_eq!(o1.collides_with(&o2), Some(true));
}
