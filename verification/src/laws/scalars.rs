//! Laws of absolute values and folded angles.

use crate::laws::reals::half_twice;
use crate::scalar::{below, exact, exceeds, magnitude, zero, Metric, Scalar};
use vstd::prelude::*;

verus! {

/// The magnitude of a scalar is the scalar or its negative, and never
/// lies below zero.
pub proof fn magnitude_is_absolute<S: Scalar>(value: spec_fn(S) -> real, a: S)
    requires
        exact(value),
    ensures
        value(magnitude(a)) >= 0real,
        value(magnitude(a)) == value(a) || value(magnitude(a)) == -value(a),
        !below(magnitude(a), zero::<S>()),
{
}

/// Folding takes the angles from zero to pi to the angles from zero to a
/// right angle, and keeps those that lie there already.
pub proof fn folded_is_acute<S: Scalar, R: Fn(S) -> S, A: Fn(S) -> S>(
    value: spec_fn(S) -> real,
    m: Metric<S, R, A>,
    angle: S,
)
    requires
        exact(value),
        0real <= value(angle) <= value(m.pi),
    ensures
        0real <= value(m.folded(angle)) <= value(m.right_angle()),
        value(m.right_angle()) + value(m.right_angle()) == value(m.pi),
        !exceeds(angle, m.right_angle()) ==> m.folded(angle) == angle,
        !below(m.folded(angle), zero::<S>()),
        !exceeds(m.folded(angle), m.right_angle()),
{
    half_twice(value(m.right_angle()), value(m.pi));
}

} // verus!
