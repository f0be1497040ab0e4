//! The boundary to `fj_math`.
//!
//! Coordinates are floating-point values inside `fj_math`'s types, which the
//! verifier treats as opaque. What `fj_math` computes on them is taken on
//! trust: each function below that carries `external_body` states, without
//! proof, what the call in its body returns.

use vstd::prelude::*;

verus! {

/// `fj_math::Point`, carried as an opaque value.
#[verifier::external_type_specification]
#[verifier::external_body]
pub struct ExPoint<const D: usize>(fj_math::Point<D>);

/// `fj_math::Vector`, carried as an opaque value.
#[verifier::external_type_specification]
#[verifier::external_body]
pub struct ExVector<const D: usize>(fj_math::Vector<D>);

/// `fj_math::Scalar`, carried as an opaque value.
#[verifier::external_type_specification]
#[verifier::external_body]
pub struct ExScalar(fj_math::Scalar);

/// `fj_math::Line`, carried as an opaque value.
#[verifier::external_type_specification]
#[verifier::external_body]
pub struct ExLine<const D: usize>(fj_math::Line<D>);

/// `fj_math::Circle`, carried as an opaque value.
#[verifier::external_type_specification]
#[verifier::external_body]
pub struct ExCircle<const D: usize>(fj_math::Circle<D>);

/// `fj_math::Triangle`, carried as an opaque value.
#[verifier::external_type_specification]
#[verifier::external_body]
pub struct ExTriangle<const D: usize>(fj_math::Triangle<D>);

/// Whether the coordinate of `point` along `axis` (0, 1 or 2) is a finite
/// number, as `f64::is_finite` answers for it.
pub uninterp spec fn coordinate_finite(point: fj_math::Point<3>, axis: int) -> bool;

/// The Euclidean distance that `fj_math::Point::distance_to` computes from `a`
/// to `b`.
pub uninterp spec fn distance_between(a: fj_math::Point<3>, b: fj_math::Point<3>) -> fj_math::Scalar;

/// Whether `a < b` in the order of `fj_math::Scalar`.
pub uninterp spec fn less(a: fj_math::Scalar, b: fj_math::Scalar) -> bool;

/// All three coordinates of `point` are finite.
pub open spec fn finite(point: fj_math::Point<3>) -> bool {
    &&& coordinate_finite(point, 0)
    &&& coordinate_finite(point, 1)
    &&& coordinate_finite(point, 2)
}

/// `a` lies closer to `b` than `limit`.
pub open spec fn within(a: fj_math::Point<3>, b: fj_math::Point<3>, limit: fj_math::Scalar) -> bool {
    less(distance_between(a, b), limit)
}

/// Reads one coordinate of `point` with `fj_math::Scalar::into_f64` and asks
/// `f64::is_finite` about it. Trusted: the answer is the one that
/// [`coordinate_finite`] names.
#[verifier::external_body]
pub(crate) fn is_coordinate_finite(point: &fj_math::Point<3>, axis: usize) -> (r: bool)
    requires
        axis < 3,
    ensures
        r == coordinate_finite(*point, axis as int),
{
    point.coords.components[axis].into_f64().is_finite()
}

/// Calls `fj_math::Point::distance_to`, which subtracts the coordinates and
/// takes the magnitude of the difference. `fj_math` panics when a difference
/// is not a number, which only the difference of two infinite coordinates is:
/// both points must be finite. Trusted: the result is the one that
/// [`distance_between`] names.
#[verifier::external_body]
pub(crate) fn distance(a: &fj_math::Point<3>, b: &fj_math::Point<3>) -> (d: fj_math::Scalar)
    requires
        finite(*a),
        finite(*b),
    ensures
        d == distance_between(*a, *b),
{
    a.distance_to(b)
}

/// Compares two scalars with `fj_math::Scalar`'s `<`. A `Scalar` is never
/// NaN, so the comparison is total. Trusted: the result is the one that
/// [`less`] names.
#[verifier::external_body]
pub(crate) fn is_less(a: &fj_math::Scalar, b: &fj_math::Scalar) -> (r: bool)
    ensures
        r == less(*a, *b),
{
    a < b
}

} // verus!
