use slingshot::position::Position;
use slingshot::rational::Q;
use slingshot::vector::Vector;

fn q(num: i64, den: i64) -> Q {
    Q::new(num, den).unwrap()
}

#[test]
fn fractions_are_stored_reduced() {
    assert_eq!(q(2, 4), q(1, 2));
    assert_eq!(q(-30, 45), q(-2, 3));
    assert_eq!(q(0, 7), Q::from_int(0));
    assert_eq!(Q::new(5, 0), None);
    assert_eq!(Q::new(5, -1), None);
}

#[test]
fn checked_arithmetic_is_exact() {
    let a = q(1, 3);
    let b = q(1, 6);
    assert_eq!(a.try_add(&b).unwrap(), q(1, 2));
    assert_eq!(a.try_sub(&b).unwrap(), q(1, 6));
    assert_eq!(a.try_mul(&b).unwrap(), q(1, 18));
    assert_eq!(a.try_div(&b).unwrap(), Q::from_int(2));
    assert_eq!(a.try_div(&q(-1, 6)).unwrap(), Q::from_int(-2));
    assert_eq!(a.neg(), q(-1, 3));
    assert!(q(-1, 2).lt(&q(1, 3)));
    assert!(q(2, 6).le(&q(1, 3)));
    assert!(q(2, 6).eq_val(&q(1, 3)));
    assert_eq!(q(-7, 2).floor(), -4);
    assert_eq!(q(7, 2).floor(), 3);
}

#[test]
fn arithmetic_out_of_range_reports_none() {
    let big = Q::from_int(i64::MAX);
    assert_eq!(big.try_add(&big), None);
    assert_eq!(big.try_mul(&big), None);
    // division by zero has no value
    assert_eq!(big.try_div(&Q::from_int(0)), None);
    // near the edge the reduced result still fits
    assert_eq!(big.try_sub(&big).unwrap(), Q::from_int(0));
}

#[test]
fn magnitude_is_the_exact_root() {
    let v = Vector::new(Q::from_int(3), Q::from_int(4));
    assert_eq!(v.magnitude().unwrap(), Q::from_int(5));
    let zero = Vector::new(Q::from_int(0), Q::from_int(0));
    assert_eq!(zero.magnitude().unwrap(), Q::from_int(0));
    // 1*1 + 1*1 = 2 has no rational root
    let diag = Vector::new(Q::from_int(1), Q::from_int(1));
    assert_eq!(diag.magnitude(), None);
    // fractional components with an exact root
    let f = Vector::new(q(3, 5), q(4, 5));
    assert_eq!(f.magnitude().unwrap(), Q::from_int(1));
}

#[test]
fn normalize_divides_by_the_magnitude() {
    let v = Vector::new(Q::from_int(3), Q::from_int(4));
    assert_eq!(v.normalize().unwrap(), Vector::new(q(3, 5), q(4, 5)));
    let zero = Vector::new(Q::from_int(0), Q::from_int(0));
    assert_eq!(zero.normalize(), None);
}

#[test]
fn vector_arithmetic_is_componentwise() {
    let a = Vector::new(Q::from_int(1), Q::from_int(-2));
    let b = Vector::new(q(1, 2), Q::from_int(5));
    assert_eq!(a.try_add(&b).unwrap(), Vector::new(q(3, 2), Q::from_int(3)));
    assert_eq!(a.try_sub(&b).unwrap(), Vector::new(q(1, 2), Q::from_int(-7)));
    assert_eq!(a.try_scale(&Q::from_int(3)).unwrap(), Vector::new(Q::from_int(3), Q::from_int(-6)));
    assert_eq!(a.try_div(&Q::from_int(2)).unwrap(), Vector::new(q(1, 2), Q::from_int(-1)));
    assert_eq!(a.neg(), Vector::new(Q::from_int(-1), Q::from_int(2)));
    assert_eq!(a.dot(b).unwrap(), q(-19, 2));
    let p0 = Position::new(Q::from_int(1), Q::from_int(1));
    let p1 = Position::new(Q::from_int(4), Q::from_int(-1));
    assert_eq!(Vector::between(p0, p1).unwrap(), Vector::new(Q::from_int(3), Q::from_int(-2)));
}
