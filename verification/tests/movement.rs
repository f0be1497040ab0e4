use brep_kernel::{CursorPosition, FocusPoint, Movement};
use fj_math::{Point, Scalar};

fn cursor(x: f64, y: f64) -> CursorPosition {
    CursorPosition {
        x: Scalar::from_f64(x),
        y: Scalar::from_f64(y),
    }
}

fn focus(x: f64, y: f64, z: f64) -> FocusPoint {
    FocusPoint {
        center: Point::from([x, y, z]),
    }
}

#[test]
fn new_movement_is_idle() {
    let mut movement = Movement::new();

    assert!(!movement.is_active());
    assert!(movement.apply(Some(cursor(1., 1.))).is_none());
}

#[test]
fn start_makes_movement_active() {
    let mut movement = Movement::new();

    movement.start(Some(focus(0., 0., 1.)), Some(cursor(10., 20.)));

    assert!(movement.is_active());
}

#[test]
fn apply_yields_step_from_previous_cursor() {
    let mut movement = Movement::new();
    movement.start(Some(focus(0., 0., 1.)), Some(cursor(10., 20.)));

    let drag = movement.apply(Some(cursor(12., 25.))).unwrap();
    assert_eq!(drag.previous.x, Scalar::from_f64(10.));
    assert_eq!(drag.previous.y, Scalar::from_f64(20.));
    assert_eq!(drag.cursor.x, Scalar::from_f64(12.));
    assert_eq!(drag.cursor.y, Scalar::from_f64(25.));
    assert_eq!(drag.focus_point.center, Point::from([0., 0., 1.]));

    let drag = movement.apply(Some(cursor(13., 26.))).unwrap();
    assert_eq!(drag.previous.x, Scalar::from_f64(12.));
    assert_eq!(drag.previous.y, Scalar::from_f64(25.));
    assert_eq!(drag.cursor.x, Scalar::from_f64(13.));
}

#[test]
fn apply_without_focus_point_only_tracks_cursor() {
    let mut movement = Movement::new();
    movement.start(None, Some(cursor(10., 20.)));

    assert!(movement.apply(Some(cursor(12., 25.))).is_none());
    assert!(movement.is_active());

    movement.start(Some(focus(0., 0., 0.)), None);
    assert!(movement.apply(Some(cursor(1., 1.))).is_none());
    assert!(movement.apply(Some(cursor(2., 2.))).is_some());
}

#[test]
fn apply_without_cursor_forgets_previous_cursor() {
    let mut movement = Movement::new();
    movement.start(Some(focus(0., 0., 0.)), Some(cursor(10., 20.)));

    assert!(movement.apply(None).is_none());
    assert!(movement.apply(Some(cursor(11., 21.))).is_none());
    assert!(movement.apply(Some(cursor(12., 22.))).is_some());
}

#[test]
fn stop_lets_go_of_focus_point_and_keeps_cursor() {
    let mut movement = Movement::new();
    movement.start(Some(focus(0., 0., 1.)), Some(cursor(10., 20.)));

    movement.stop();

    assert!(!movement.is_active());
    assert!(movement.apply(Some(cursor(12., 25.))).is_none());

    movement.start(Some(focus(0., 0., 1.)), Some(cursor(1., 2.)));
    movement.stop();
    movement.start(Some(focus(0., 0., 2.)), Some(cursor(3., 4.)));
    let drag = movement.apply(Some(cursor(5., 6.))).unwrap();
    assert_eq!(drag.previous.x, Scalar::from_f64(3.));
    assert_eq!(drag.focus_point.center, Point::from([0., 0., 2.]));
}
