use slingshot::collision::{Collision, CollisionKind};
use slingshot::rational::Q;
use slingshot::vector::Vector;

fn q(num: i64, den: i64) -> Q {
    Q::new(num, den).unwrap()
}

fn v(x: i64, y: i64) -> Vector {
    Vector::new(Q::from_int(x), Q::from_int(y))
}

#[test]
fn test_perfectly_inelastic_collision() {
    let col = Collision {
        obj1: (Q::from_int(2), v(3, 0)),
        obj2: (Q::from_int(1), v(0, 0)),
        kind: CollisionKind::PerfectlyInelastic,
    };

    let (v1, v2) = col.simulate().unwrap();

    assert_eq!(v1, v2);
    assert_eq!(v1.magnitude().unwrap(), Q::from_int(2));
    assert_eq!(v2.magnitude().unwrap(), Q::from_int(2));
}

#[test]
fn test_elastic_collision() {
    let v1 = v(3, 0);
    let v2 = v(0, 0);
    let m = Q::from_int(10);

    let col = Collision { obj1: (m, v1), obj2: (m, v2), kind: CollisionKind::Elastic };

    let (v1_f, v2_f) = col.simulate().unwrap();

    assert_eq!(v1_f, v2);
    assert_eq!(v2_f, v1);
}

#[test]
fn test_elastic_collision_opposite_directions() {
    let v1 = v(-3, 0);
    let v2 = v(4, 0);
    let m = Q::from_int(10);

    let col = Collision { obj1: (m, v1), obj2: (m, v2), kind: CollisionKind::Elastic };

    let (v1_f, v2_f) = col.simulate().unwrap();

    assert_eq!(v1_f, v2);
    assert_eq!(v2_f, v1);
}

#[test]
fn test_elastic_collision_opposite_directions_with_damping() {
    let v1 = v(-3, 0);
    let v2 = v(4, 0);
    let m = Q::from_int(10);
    let damping_factor = q(5, 100);

    let col = Collision { obj1: (m, v1), obj2: (m, v2), kind: CollisionKind::Damping(damping_factor) };

    let (v1_f, v2_f) = col.simulate().unwrap();

    let one_minus = Q::from_int(1).try_sub(&damping_factor).unwrap();
    assert_eq!(v1_f, v2.try_scale(&one_minus).unwrap());
    assert_eq!(v2_f, v1.try_scale(&one_minus).unwrap());
}

#[test]
fn damped_collision_scales_only_x() {
    let v1 = v(-3, 7);
    let v2 = v(4, -2);
    let m = Q::from_int(10);
    let factor = q(1, 20);

    let col = Collision { obj1: (m, v1), obj2: (m, v2), kind: CollisionKind::Damping(factor) };

    let (v1_f, v2_f) = col.simulate().unwrap();

    // x components are swapped and scaled by 19/20; y components only swap
    assert_eq!(v1_f.x, q(19, 5));
    assert_eq!(v1_f.y, Q::from_int(-2));
    assert_eq!(v2_f.x, q(-57, 20));
    assert_eq!(v2_f.y, Q::from_int(7));
}

#[test]
fn inelastic_collision_of_unequal_masses() {
    // m1=1 at (3,0) against m2=2 at rest: both leave at (1,0)
    let col = Collision {
        obj1: (Q::from_int(1), v(3, 0)),
        obj2: (Q::from_int(2), v(0, 0)),
        kind: CollisionKind::PerfectlyInelastic,
    };
    let (v1_f, v2_f) = col.simulate().unwrap();
    assert_eq!(v1_f, v(1, 0));
    assert_eq!(v2_f, v(1, 0));
}

#[test]
fn zero_mass_collision_reports_none() {
    let col = Collision {
        obj1: (Q::from_int(0), v(3, 0)),
        obj2: (Q::from_int(1), v(0, 0)),
        kind: CollisionKind::Elastic,
    };
    assert!(col.simulate().is_none());
}
