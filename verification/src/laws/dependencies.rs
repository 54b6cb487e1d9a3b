//! Laws of affine dependencies: each one that the library derives is a
//! consequence of the plane equations it was derived from.

use crate::laws::reals::{
    commutes, fixed_isolated, gathered, isolated, regrouped, same_product, scaled_difference,
    scaled_sum, zero_product,
};
use crate::math::dependence::{
    coefficient, has_axis, Dimension, PlaneEquation, SingleScalarDependence,
};
use crate::scalar::{exact, is_zero, minus, negated, over, plus, times, Scalar};
use crate::vector::Vector;
use vstd::prelude::*;

verus! {

/// The coordinate of a point on an axis.
pub open spec fn component<S>(p: Vector<S>, axis: Dimension) -> S {
    match axis {
        Dimension::X => p.0,
        Dimension::Y => p.1,
        _ => p.2,
    }
}

/// The left side of a plane equation at a point, in the real numbers.
pub open spec fn real_equation<S: Scalar>(
    value: spec_fn(S) -> real,
    eq: PlaneEquation<S>,
    p: Vector<S>,
) -> real {
    value(eq.0) * value(p.0) + value(eq.1) * value(p.1) + value(eq.2) * value(p.2) + value(eq.3)
}

/// By how much a point fails a dependence, in the real numbers: its
/// coordinate on the target less what the dependence gives for it.
pub open spec fn residual<S: Scalar>(
    value: spec_fn(S) -> real,
    dep: SingleScalarDependence<S>,
    p: Vector<S>,
) -> real {
    if dep.source == Dimension::NoAxis {
        value(component(p, dep.target)) - value(dep.constant)
    } else {
        value(component(p, dep.target)) - (value(dep.source_scalar) * value(
            component(p, dep.source),
        ) + value(dep.constant))
    }
}

/// A scalar is zero where its valuation is.
pub(crate) proof fn zero_is_zero<S: Scalar>(value: spec_fn(S) -> real, a: S)
    requires
        exact(value),
    ensures
        is_zero(a) <==> value(a) == 0real,
{
}

/// The residual of a dependence of one axis on another, times the
/// coefficient it was solved by, is the two-axis equation it came from.
proof fn affine_residual<S: Scalar>(
    value: spec_fn(S) -> real,
    target: Dimension,
    source: Dimension,
    target_coefficient: S,
    source_coefficient: S,
    constant: S,
    p: Vector<S>,
)
    requires
        exact(value),
        source != Dimension::NoAxis,
        value(target_coefficient) != 0real,
    ensures
        residual(
            value,
            SingleScalarDependence::affine(
                target,
                source,
                target_coefficient,
                source_coefficient,
                constant,
            ),
            p,
        ) * value(target_coefficient) == value(target_coefficient) * value(component(p, target))
            + value(source_coefficient) * value(component(p, source)) + value(constant),
{
    let dep = SingleScalarDependence::affine(
        target,
        source,
        target_coefficient,
        source_coefficient,
        constant,
    );
    isolated(
        value(component(p, target)),
        value(component(p, source)),
        value(dep.source_scalar),
        value(dep.constant),
        value(target_coefficient),
        value(source_coefficient),
        value(constant),
    );
}

/// The residual of a dependence that fixes an axis, times the coefficient
/// it was solved by, is the one-axis equation it came from.
proof fn fixed_residual<S: Scalar>(
    value: spec_fn(S) -> real,
    target: Dimension,
    target_coefficient: S,
    constant: S,
    p: Vector<S>,
)
    requires
        exact(value),
        value(target_coefficient) != 0real,
    ensures
        residual(value, SingleScalarDependence::fixed(target, target_coefficient, constant), p)
            * value(target_coefficient) == value(target_coefficient) * value(
            component(p, target),
        ) + value(constant),
{
    let dep = SingleScalarDependence::fixed(target, target_coefficient, constant);
    fixed_isolated(
        value(component(p, target)),
        value(dep.constant),
        value(target_coefficient),
        value(constant),
    );
}

/// The dependence that a plane equation gives by itself says what the
/// equation says: at every point its residual, times the coefficient of
/// its target, is the left side of the equation.
pub proof fn derived_is_equation<S: Scalar>(
    value: spec_fn(S) -> real,
    eq: PlaneEquation<S>,
    p: Vector<S>,
)
    requires
        exact(value),
        has_axis(eq),
        SingleScalarDependence::derived(eq.0, eq.1, eq.2, eq.3) is Ok,
    ensures
        ({
            let dep = SingleScalarDependence::derived(eq.0, eq.1, eq.2, eq.3)->Ok_0;
            &&& dep.wf()
            &&& value(coefficient(eq, dep.target)) != 0real
            &&& residual(value, dep, p) * value(coefficient(eq, dep.target)) == real_equation(
                value,
                eq,
                p,
            )
        }),
{
    zero_is_zero(value, eq.0);
    zero_is_zero(value, eq.1);
    zero_is_zero(value, eq.2);
    if is_zero(eq.0) {
        zero_product(value(eq.0), value(p.0));
    }
    if is_zero(eq.1) {
        zero_product(value(eq.1), value(p.1));
    }
    if is_zero(eq.2) {
        zero_product(value(eq.2), value(p.2));
    }
    if is_zero(eq.0) && is_zero(eq.1) {
        fixed_residual(value, Dimension::Z, eq.2, eq.3, p);
    } else if is_zero(eq.0) && is_zero(eq.2) {
        fixed_residual(value, Dimension::Y, eq.1, eq.3, p);
    } else if is_zero(eq.1) && is_zero(eq.2) {
        fixed_residual(value, Dimension::X, eq.0, eq.3, p);
    } else if is_zero(eq.0) {
        affine_residual(value, Dimension::Z, Dimension::Y, eq.2, eq.1, eq.3, p);
    } else if is_zero(eq.1) {
        affine_residual(value, Dimension::Z, Dimension::X, eq.2, eq.0, eq.3, p);
    } else {
        affine_residual(value, Dimension::Y, Dimension::X, eq.1, eq.0, eq.3, p);
    }
}

/// Substituting a dependence into a plane equation gives a dependence
/// that says what the equation says of the points that satisfy the first:
/// at each such point its residual, times the coefficient of its target,
/// is the left side of the equation.
pub proof fn substituted_is_equation<S: Scalar>(
    value: spec_fn(S) -> real,
    dep: SingleScalarDependence<S>,
    eq: PlaneEquation<S>,
    p: Vector<S>,
)
    requires
        exact(value),
        dep.wf(),
        residual(value, dep, p) == 0real,
        value(coefficient(eq, dep.substituted(eq).target)) != 0real,
    ensures
        ({
            let next = dep.substituted(eq);
            &&& next.wf()
            &&& next.target != dep.target
            &&& residual(value, next, p) * value(coefficient(eq, next.target)) == real_equation(
                value,
                eq,
                p,
            )
        }),
{
    let carried = coefficient(eq, dep.target);
    let constant = plus(eq.3, times(dep.constant, carried));
    let t = value(component(p, dep.target));
    let n = value(dep.constant);
    if dep.source == Dimension::NoAxis {
        let upper = dep.target.upper();
        let lower = dep.target.lower();
        affine_residual(
            value,
            upper,
            lower,
            coefficient(eq, upper),
            coefficient(eq, lower),
            constant,
            p,
        );
        commutes(n, value(carried));
        same_product(t, n, value(carried));
    } else {
        let free = dep.source.third(dep.target);
        let m = value(dep.source_scalar);
        let s = value(component(p, dep.source));
        let cs = value(coefficient(eq, dep.source));
        let gathered_coefficient = plus(
            coefficient(eq, dep.source),
            times(dep.source_scalar, carried),
        );
        affine_residual(
            value,
            free,
            dep.source,
            coefficient(eq, free),
            gathered_coefficient,
            constant,
            p,
        );
        gathered(cs, m, value(carried), s, value(eq.3), n);
        same_product(value(gathered_coefficient), cs + m * value(carried), s);
        same_product(t, m * s + n, value(carried));
    }
}

/// Eliminating `x` between two plane equations gives a dependence that
/// says what a combination of the two says: at every point its residual,
/// times the coefficient of `z` that elimination left, is the first
/// equation less the second scaled to the same coefficient of `x`.
pub proof fn eliminated_is_combination<S: Scalar>(
    value: spec_fn(S) -> real,
    eq1: PlaneEquation<S>,
    eq2: PlaneEquation<S>,
    p: Vector<S>,
)
    requires
        exact(value),
        value(eq2.0) != 0real,
        value(minus(eq1.2, times(eq2.2, over(eq1.0, eq2.0)))) != 0real,
    ensures
        ({
            let dep = SingleScalarDependence::eliminated(eq1, eq2);
            let multiplier = over(eq1.0, eq2.0);
            &&& dep.wf()
            &&& value(multiplier) * value(eq2.0) == value(eq1.0)
            &&& residual(value, dep, p) * value(minus(eq1.2, times(eq2.2, multiplier)))
                == real_equation(value, eq1, p) - value(multiplier) * real_equation(value, eq2, p)
        }),
{
    let multiplier = over(eq1.0, eq2.0);
    let mu = value(multiplier);
    let z_coefficient = minus(eq1.2, times(eq2.2, multiplier));
    let y_coefficient = minus(eq1.1, times(eq2.1, multiplier));
    let constant = minus(eq1.3, times(eq2.3, multiplier));
    let (x, y, z) = (value(p.0), value(p.1), value(p.2));
    let (a, b, c, d1) = (value(eq1.0), value(eq1.1), value(eq1.2), value(eq1.3));
    let (m, n, k, d2) = (value(eq2.0), value(eq2.1), value(eq2.2), value(eq2.3));
    affine_residual(value, Dimension::Z, Dimension::Y, z_coefficient, y_coefficient, constant, p);
    same_product(value(z_coefficient), c - k * mu, z);
    scaled_difference(c, k, mu, z);
    same_product(value(y_coefficient), b - n * mu, y);
    scaled_difference(b, n, mu, y);
    commutes(d2, mu);
    scaled_sum(mu, m * x, n * y, k * z, d2);
    regrouped(mu, m, x);
    same_product(mu * m, a, x);
}

/// The point that two dependencies give for a parameter satisfies both of
/// them.
pub proof fn assembled_satisfies_both<S: Scalar>(
    value: spec_fn(S) -> real,
    dep1: SingleScalarDependence<S>,
    dep2: SingleScalarDependence<S>,
    parameter: S,
)
    requires
        exact(value),
        dep1.wf(),
        dep2.wf(),
        SingleScalarDependence::assembled(dep1, dep2, parameter) is Some,
    ensures
        ({
            let p = SingleScalarDependence::assembled(dep1, dep2, parameter)->Some_0;
            &&& residual(value, dep1, p) == 0real
            &&& residual(value, dep2, p) == 0real
        }),
{
}

} // verus!
