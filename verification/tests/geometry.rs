use brep_kernel::Position;
use fj_math::{Point, Scalar};

fn point(x: f64, y: f64, z: f64) -> Position {
    Position::new(Point::from([x, y, z])).unwrap()
}

#[test]
fn position_keeps_its_coordinates() {
    let position = point(1., -2., 3.5);

    assert_eq!(position.position(), Point::from([1., -2., 3.5]));
}

#[test]
fn position_accepts_finite_coordinates() {
    assert!(Position::new(Point::from([0., 0., 0.])).is_some());
    assert!(Position::new(Point::from([f64::MAX, f64::MIN, -0.])).is_some());
}

#[test]
fn position_rejects_infinite_coordinates() {
    assert!(Position::new(Point::from([f64::INFINITY, 0., 0.])).is_none());
    assert!(Position::new(Point::from([0., f64::NEG_INFINITY, 0.])).is_none());
    assert!(Position::new(Point::from([0., 0., f64::INFINITY])).is_none());
}

#[test]
fn distance_is_euclidean() {
    let a = point(0., 0., 0.);
    let b = point(3., 4., 0.);
    let c = point(1., 2., 2.);

    assert_eq!(a.distance_to(&b), Scalar::from_f64(5.));
    assert_eq!(b.distance_to(&a), Scalar::from_f64(5.));
    assert_eq!(a.distance_to(&c), Scalar::from_f64(3.));
    assert_eq!(a.distance_to(&a), Scalar::ZERO);
}

#[test]
fn distance_of_far_points_does_not_panic() {
    let a = point(f64::MAX, 0., 0.);
    let b = point(-f64::MAX, 0., 0.);

    assert_eq!(a.distance_to(&b), Scalar::from_f64(f64::INFINITY));
}

#[test]
fn closer_than_is_strict() {
    let a = point(0., 0., 0.);
    let b = point(3., 4., 0.);

    assert!(a.closer_than(&b, &Scalar::from_f64(5.5)));
    assert!(!a.closer_than(&b, &Scalar::from_f64(5.)));
    assert!(!a.closer_than(&b, &Scalar::from_f64(4.5)));
    assert!(a.closer_than(&a, &Scalar::from_f64(0.01)));
    assert!(!a.closer_than(&a, &Scalar::ZERO));
}
