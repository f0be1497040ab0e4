use std::collections::HashSet;

use brep_kernel::{Curve, Handle, Position, Store, Stores};
use fj_math::{Line, Point};

fn point(x: f64, y: f64, z: f64) -> Position {
    Position::new(Point::from([x, y, z])).unwrap()
}

fn x_axis() -> Curve {
    let (line, _) = Line::from_points([[0., 0., 0.], [1., 0., 0.]]);
    Curve::Line(line)
}

#[test]
fn new_store_is_empty() {
    let store: Store<Position> = Store::new(7);

    assert_eq!(store.id(), 7);
    assert_eq!(store.len(), 0);
    assert!(store.handles().is_empty());
}

#[test]
fn insert_returns_handle_to_value() {
    let mut store = Store::new(1);

    let a = store.insert(point(1., 2., 3.));

    assert_eq!(store.len(), 1);
    assert!(store.contains(&a));
    assert_eq!(store.get(&a), Some(&point(1., 2., 3.)));
}

#[test]
fn equal_values_get_distinct_handles() {
    let mut store = Store::new(1);

    let first = store.insert(x_axis());
    assert!(store.contains(&first));
    let second = store.insert(x_axis());

    assert_ne!(first, second);
    assert!(store.contains(&first));
    assert!(store.contains(&second));
    assert_eq!(store.len(), 2);
    assert_eq!(store.get(&first), store.get(&second));
}

#[test]
fn handle_is_unknown_before_its_insertion() {
    let mut ahead = Store::new(1);
    ahead.insert(point(0., 0., 0.));
    let later = ahead.insert(point(1., 0., 0.));

    let mut store = Store::new(1);
    store.insert(point(0., 0., 0.));
    assert!(!store.contains(&later));
    assert_eq!(store.get(&later), None);

    store.insert(point(1., 0., 0.));
    assert!(store.contains(&later));
}

#[test]
fn handles_persist_across_insertions() {
    let mut store = Store::new(3);
    let a = store.insert(point(1., 0., 0.));
    let b = store.insert(point(2., 0., 0.));
    let c = store.insert(point(3., 0., 0.));

    assert_eq!(store.get(&a), Some(&point(1., 0., 0.)));
    assert_eq!(store.get(&b), Some(&point(2., 0., 0.)));
    assert_eq!(store.get(&c), Some(&point(3., 0., 0.)));
}

#[test]
fn handles_come_in_insertion_order() {
    let mut store = Store::new(3);
    let a = store.insert(point(1., 0., 0.));
    let b = store.insert(point(2., 0., 0.));
    let c = store.insert(point(3., 0., 0.));

    assert_eq!(store.handles(), vec![a, b, c]);
    assert_eq!(store.handles(), vec![a, b, c]);
}

#[test]
fn stores_with_different_identifiers_share_no_handle() {
    let mut one = Store::new(1);
    let mut other = Store::new(2);

    let in_one = one.insert(point(0., 0., 0.));
    let in_other = other.insert(point(0., 0., 0.));

    assert_ne!(in_one, in_other);
    assert!(one.contains(&in_one));
    assert!(!one.contains(&in_other));
    assert!(other.contains(&in_other));
    assert!(!other.contains(&in_one));
    assert_eq!(one.get(&in_other), None);
}

#[test]
fn handle_is_copied_and_hashed_by_identity() {
    let mut store = Store::new(1);
    let a = store.insert(x_axis());
    let b = store.insert(x_axis());

    let copy = a;
    let clone = a.clone();
    assert_eq!(copy, a);
    assert_eq!(clone, a);

    let mut set: HashSet<Handle<Curve>> = HashSet::new();
    set.insert(a);
    set.insert(copy);
    set.insert(b);
    assert_eq!(set.len(), 2);
}

#[test]
fn new_stores_share_one_identifier() {
    let stores = Stores::new(9);

    assert_eq!(stores.points.id(), 9);
    assert_eq!(stores.curves.id(), 9);
    assert_eq!(stores.surfaces.id(), 9);
    assert_eq!(stores.vertices.id(), 9);
    assert_eq!(stores.edges.id(), 9);
    assert_eq!(stores.cycles.id(), 9);
    assert_eq!(stores.faces.id(), 9);
    assert_eq!(stores.points.len(), 0);
    assert_eq!(stores.faces.len(), 0);
}
