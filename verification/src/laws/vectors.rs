//! Laws of the scalar and the vector product.

use crate::laws::reals::{
    equal_quotients, minor_by_factor, nonzero_product, repeated_factor_vanishes, zero_product,
};
use crate::math::ratio::Ratio;
use crate::scalar::{exact, is_zero, minus, negated, over, plus, times, zero, Scalar};
use crate::vector::Vector;
use vstd::prelude::*;

verus! {

/// The scalar product of `u` and `v`, computed in the real numbers.
pub open spec fn real_dot<S: Scalar>(value: spec_fn(S) -> real, u: Vector<S>, v: Vector<S>) -> real {
    value(u.0) * value(v.0) + value(u.1) * value(v.1) + value(u.2) * value(v.2)
}

/// The valuation of a scalar product is the real scalar product of the
/// valuations.
pub(crate) proof fn dot_is_real_dot<S: Scalar>(value: spec_fn(S) -> real, u: Vector<S>, v: Vector<S>)
    requires
        exact(value),
    ensures
        value(u.dot(v)) == real_dot(value, u, v),
{
}

/// The scalar product is commutative: `u . v == v . u`.
pub proof fn dot_commutes<S: Scalar>(value: spec_fn(S) -> real, u: Vector<S>, v: Vector<S>)
    requires
        exact(value),
    ensures
        u.dot(v) == v.dot(u),
{
    dot_is_real_dot(value, u, v);
    dot_is_real_dot(value, v, u);
    assert(real_dot(value, u, v) == real_dot(value, v, u)) by (nonlinear_arith)
        requires
            real_dot(value, u, v) == value(u.0) * value(v.0) + value(u.1) * value(v.1) + value(
                u.2,
            ) * value(v.2),
            real_dot(value, v, u) == value(v.0) * value(u.0) + value(v.1) * value(u.1) + value(
                v.2,
            ) * value(u.2),
    ;
}

/// One coordinate of a vector product: `a * b - c * d` negated is
/// `d * c - b * a`.
proof fn minor_anticommutes<S: Scalar>(value: spec_fn(S) -> real, a: S, b: S, c: S, d: S)
    requires
        exact(value),
    ensures
        minus(times(a, b), times(c, d)) == negated(minus(times(d, c), times(b, a))),
{
    let left = minus(times(a, b), times(c, d));
    let right = negated(minus(times(d, c), times(b, a)));
    assert(value(left) == value(right)) by (nonlinear_arith)
        requires
            value(left) == value(a) * value(b) - value(c) * value(d),
            value(right) == -(value(d) * value(c) - value(b) * value(a)),
    ;
}

/// The vector product is anticommutative: `u x v == -(v x u)`.
pub proof fn cross_anticommutes<S: Scalar>(value: spec_fn(S) -> real, u: Vector<S>, v: Vector<S>)
    requires
        exact(value),
    ensures
        u.cross(v) == v.cross(u).opposite(),
{
    minor_anticommutes(value, u.1, v.2, u.2, v.1);
    minor_anticommutes(value, u.2, v.0, u.0, v.2);
    minor_anticommutes(value, u.0, v.1, u.1, v.0);
}

/// The vector product is orthogonal to both of its arguments:
/// `(u x v) . u == 0` and `(u x v) . v == 0`.
pub proof fn cross_is_orthogonal<S: Scalar>(value: spec_fn(S) -> real, u: Vector<S>, v: Vector<S>)
    requires
        exact(value),
    ensures
        u.cross(v).dot(u) == zero::<S>(),
        u.cross(v).dot(v) == zero::<S>(),
{
    let w = u.cross(v);
    dot_is_real_dot(value, w, u);
    dot_is_real_dot(value, w, v);
    repeated_factor_vanishes(
        value(u.0),
        value(u.1),
        value(u.2),
        value(v.0),
        value(v.1),
        value(v.2),
    );
}

/// The minor of two pairs of coordinates: `ui * vj - uj * vi`.
pub open spec fn minor<S: Scalar>(ui: S, vi: S, uj: S, vj: S) -> S {
    minus(times(ui, vj), times(uj, vi))
}

/// Two coordinate pairs whose ratios agree have a minor of zero.
proof fn agreeing_ratios_have_no_minor<S: Scalar>(
    value: spec_fn(S) -> real,
    ui: S,
    vi: S,
    uj: S,
    vj: S,
)
    requires
        exact(value),
        Ratio::of(ui, vi).agrees(Ratio::of(uj, vj)),
    ensures
        is_zero(minor(ui, vi, uj, vj)),
{
    let (a, b, c, d) = (value(ui), value(vi), value(uj), value(vj));
    if is_zero(ui) && is_zero(vi) {
        zero_product(a, d);
        zero_product(b, c);
    } else if is_zero(uj) && is_zero(vj) {
        zero_product(d, a);
        zero_product(c, b);
    } else {
        let q = value(over(ui, vi));
        minor_by_factor(a, b, c, d, q);
        zero_product(a - q * b, d);
        zero_product(c - q * d, b);
    }
}

/// Linearly dependent vectors have a null vector product.
pub proof fn dependent_vectors_have_null_product<S: Scalar>(
    value: spec_fn(S) -> real,
    u: Vector<S>,
    v: Vector<S>,
)
    requires
        exact(value),
        u.lindep(v),
    ensures
        u.cross(v).null(),
{
    agreeing_ratios_have_no_minor(value, u.1, v.1, u.2, v.2);
    agreeing_ratios_have_no_minor(value, u.0, v.0, u.2, v.2);
    agreeing_ratios_have_no_minor(value, u.0, v.0, u.1, v.1);
}

/// Two coordinate pairs with a minor of zero have ratios that agree,
/// where neither ratio is invalid.
proof fn no_minor_gives_agreeing_ratios<S: Scalar>(
    value: spec_fn(S) -> real,
    ui: S,
    vi: S,
    uj: S,
    vj: S,
)
    requires
        exact(value),
        is_zero(minor(ui, vi, uj, vj)),
        !(Ratio::of(ui, vi) is Invalid),
        !(Ratio::of(uj, vj) is Invalid),
    ensures
        Ratio::of(ui, vi).agrees(Ratio::of(uj, vj)),
{
    let (a, b, c, d) = (value(ui), value(vi), value(uj), value(vj));
    if Ratio::of(ui, vi) is Real && Ratio::of(uj, vj) is Real {
        let qi = value(over(ui, vi));
        let qj = value(over(uj, vj));
        equal_quotients(a, b, c, d, qi, qj);
    }
}

/// A coordinate pair of two vectors has no invalid ratio where a vector
/// product is null and neither vector is: a coordinate that is zero in one
/// vector only would leave a minor with a coordinate that is not zero in
/// that vector.
proof fn null_minors_leave_no_invalid_ratio<S: Scalar>(
    value: spec_fn(S) -> real,
    ui: S,
    vi: S,
    uj: S,
    vj: S,
    uk: S,
    vk: S,
)
    requires
        exact(value),
        is_zero(minor(ui, vi, uj, vj)),
        is_zero(minor(ui, vi, uk, vk)),
        !(is_zero(ui) && is_zero(uj) && is_zero(uk)),
        !(is_zero(vi) && is_zero(vj) && is_zero(vk)),
    ensures
        !(Ratio::of(ui, vi) is Invalid),
{
    let (a, b) = (value(ui), value(vi));
    let (c, d) = (value(uj), value(vj));
    let (e, f) = (value(uk), value(vk));
    if is_zero(ui) && !is_zero(vi) {
        zero_product(a, d);
        zero_product(a, f);
        if !is_zero(uj) {
            nonzero_product(c, b);
        } else {
            nonzero_product(e, b);
        }
    } else if !is_zero(ui) && is_zero(vi) {
        zero_product(b, c);
        zero_product(b, e);
        if !is_zero(vj) {
            nonzero_product(a, d);
        } else {
            nonzero_product(a, f);
        }
    }
}

/// Two vectors that are not null and not linearly dependent have a vector
/// product that is not null: the normal of the plane they span.
pub proof fn independent_vectors_have_a_normal<S: Scalar>(
    value: spec_fn(S) -> real,
    u: Vector<S>,
    v: Vector<S>,
)
    requires
        exact(value),
        !u.null(),
        !v.null(),
        !u.lindep(v),
    ensures
        !u.cross(v).null(),
{
    let w = u.cross(v);
    if w.null() {
        // each ratio is valid, and each pair of ratios has a minor of zero
        null_minors_leave_no_invalid_ratio(value, u.0, v.0, u.1, v.1, u.2, v.2);
        null_minors_leave_no_invalid_ratio(value, u.1, v.1, u.0, v.0, u.2, v.2);
        null_minors_leave_no_invalid_ratio(value, u.2, v.2, u.0, v.0, u.1, v.1);
        no_minor_gives_agreeing_ratios(value, u.0, v.0, u.1, v.1);
        no_minor_gives_agreeing_ratios(value, u.0, v.0, u.2, v.2);
        no_minor_gives_agreeing_ratios(value, u.1, v.1, u.2, v.2);
    }
}

} // verus!
