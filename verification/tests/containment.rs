use slingshot::position::Position;
use slingshot::rational::Q;

fn q(num: i64, den: i64) -> Q {
    Q::new(num, den).unwrap()
}

fn p(x: Q, y: Q) -> Position {
    Position::new(x, y)
}

#[test]
fn test_contained_within_simple_square() {
    assert!(
        p(q(1, 2), q(1, 2)).contained_within(
            p(Q::from_int(0), Q::from_int(0)),
            p(Q::from_int(1), Q::from_int(1)),
        )
    )
}

#[test]
fn test_contained_within_rectangle() {
    assert!(
        p(Q::from_int(0), Q::from_int(0)).contained_within(
            p(Q::from_int(-10), Q::from_int(10)),
            p(Q::from_int(6), Q::from_int(-1)),
        )
    )
}

#[test]
fn test_contained_within_outside() {
    assert_eq!(
        p(Q::from_int(2), Q::from_int(2)).contained_within(
            p(Q::from_int(0), Q::from_int(0)),
            p(Q::from_int(1), Q::from_int(1)),
        ),
        false
    )
}

#[test]
fn contained_within_includes_boundary_and_ignores_corner_order() {
    let a = p(Q::from_int(-3), Q::from_int(5));
    let b = p(Q::from_int(2), Q::from_int(-1));
    // both corners lie in the box they span
    assert!(a.contained_within(a, b));
    assert!(b.contained_within(a, b));
    // an edge point counts
    let edge = p(Q::from_int(-3), Q::from_int(0));
    assert!(edge.contained_within(a, b));
    // corner order is immaterial
    let inside = p(q(1, 3), q(7, 2));
    assert_eq!(inside.contained_within(a, b), inside.contained_within(b, a));
    let outside = p(Q::from_int(9), Q::from_int(0));
    assert_eq!(outside.contained_within(a, b), outside.contained_within(b, a));
    assert!(!outside.contained_within(b, a));
}
