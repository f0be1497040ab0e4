//! Geometric objects: the leaves of the shape graph.
//!
//! Points, curves and surfaces hold coordinates and nothing else. They refer
//! to no other object, so a store accepts any of them as it is.

use vstd::prelude::*;
use crate::math::{distance, distance_between, finite, is_coordinate_finite, is_less, within};

verus! {

/// A point in space, with finite coordinates.
#[derive(Clone, Copy, Debug, PartialEq, Eq, Hash)]
pub struct Position {
    position: fj_math::Point<3>,
}

impl View for Position {
    type V = fj_math::Point<3>;

    closed spec fn view(&self) -> fj_math::Point<3> {
        self.position
    }
}

impl Position {
    #[verifier::type_invariant]
    spec fn coordinates_are_finite(self) -> bool {
        finite(self.position)
    }

    /// Accepts `position` if all its coordinates are finite.
    pub fn new(position: fj_math::Point<3>) -> (r: Option<Position>)
        ensures
            r is Some <==> finite(position),
            r matches Some(point) ==> point@ == position,
    {
        if is_coordinate_finite(&position, 0) && is_coordinate_finite(&position, 1)
            && is_coordinate_finite(&position, 2) {
            Some(Position { position })
        } else {
            None
        }
    }

    /// The coordinates of the point.
    pub fn position(&self) -> (r: fj_math::Point<3>)
        ensures
            r == self@,
            finite(r),
    {
        proof {
            use_type_invariant(self);
        }
        self.position
    }

    /// The distance from this point to `other`.
    pub fn distance_to(&self, other: &Position) -> (d: fj_math::Scalar)
        ensures
            d == distance_between(self@, other@),
    {
        proof {
            use_type_invariant(self);
            use_type_invariant(other);
        }
        distance(&self.position, &other.position)
    }

    /// Whether this point lies closer to `other` than `limit`.
    pub fn closer_than(&self, other: &Position, limit: &fj_math::Scalar) -> (r: bool)
        ensures
            r == within(self@, other@, *limit),
    {
        let d = self.distance_to(other);
        is_less(&d, limit)
    }
}

/// A one-dimensional object in space.
#[derive(Clone, Copy, Debug, PartialEq, Eq, Hash)]
pub enum Curve {
    /// A circle.
    Circle(fj_math::Circle<3>),
    /// A line of infinite length.
    Line(fj_math::Line<3>),
}

/// A surface that a curve covers while it is swept along a straight path.
#[derive(Clone, Copy, Debug, PartialEq, Eq, Hash)]
pub struct SweptCurve {
    /// The curve that is swept.
    pub curve: Curve,
    /// The path along which the curve is swept.
    pub path: fj_math::Vector<3>,
}

/// A two-dimensional object in space.
#[derive(Clone, Copy, Debug, PartialEq, Eq, Hash)]
pub enum Surface {
    /// A swept curve.
    SweptCurve(SweptCurve),
}

} // verus!
