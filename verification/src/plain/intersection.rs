//! The line in which two planes intersect.

use crate::line::Line;
use crate::math::dependence::{PlaneEquation, SingleScalarDependence};
use crate::plain::Plain;
use crate::scalar::{one, well_behaved, zero, Scalar};
use crate::vector::Vector;
use vstd::prelude::*;

verus! {

/// The second dependence of two plane equations, given the first: what the
/// first equation adds to it, else what the second adds.
pub open spec fn second_dependence<S: Scalar>(
    dep1: SingleScalarDependence<S>,
    eq1: PlaneEquation<S>,
    eq2: PlaneEquation<S>,
) -> Option<SingleScalarDependence<S>> {
    match dep1.substitution(eq1) {
        Some(dependence) => Some(dependence),
        None => dep1.substitution(eq2),
    }
}

/// The line through the two points that two dependencies give for the
/// parameters 0 and 1.
pub open spec fn traced<S: Scalar>(
    dep1: SingleScalarDependence<S>,
    dep2: SingleScalarDependence<S>,
) -> Option<Line<S>> {
    match (
        SingleScalarDependence::assembled(dep1, dep2, zero::<S>()),
        SingleScalarDependence::assembled(dep1, dep2, one::<S>()),
    ) {
        (Some(point1), Some(point2)) => Some(
            Line { point: point1, direction: point2.difference(point1) },
        ),
        _ => None,
    }
}

/// The line of intersection of two planes, as two dependencies between
/// coordinates give it. There is none where a normal is null, where the
/// normals are dependent, where the second equation adds no dependence on
/// other coordinates than the first, or where the two dependencies give no
/// point.
pub open spec fn crossing<S: Scalar>(plain1: Plain<S>, plain2: Plain<S>) -> Option<Line<S>> {
    if plain1.plumb.null() || plain2.plumb.null() || plain1.plumb.lindep(plain2.plumb) {
        None
    } else {
        let dep1 = SingleScalarDependence::derived_from(plain1.equation(), plain2.equation());
        match second_dependence(dep1, plain1.equation(), plain2.equation()) {
            Some(dep2) => traced(dep1, dep2),
            None => None,
        }
    }
}

/// Computes the line in which two planes intersect, where the
/// dependencies between coordinates give one.
pub fn intersection<S: Scalar>(plain1: &Plain<S>, plain2: &Plain<S>) -> (r: Option<Line<S>>)
    requires
        well_behaved::<S>(),
    ensures
        r == crossing(*plain1, *plain2),
{
    if plain1.plumb.is_null() || plain2.plumb.is_null() || plain1.plumb.is_lindep(&plain2.plumb) {
        return None;
    }
    let Vector(a, b, c) = plain1.plumb;
    let Vector(m, n, k) = plain2.plumb;
    let dep1: SingleScalarDependence<S> = SingleScalarDependence::compute_from(
        (a, b, c, plain1.constant_d),
        (m, n, k, plain2.constant_d),
    );
    let dep2: SingleScalarDependence<S> = match dep1.substitute_in(a, b, c, plain1.constant_d) {
        Some(dependence) => dependence,
        None => match dep1.substitute_in(m, n, k, plain2.constant_d) {
            Some(dependence) => dependence,
            None => {
                return None;
            },
        },
    };
    let point1: Vector<S> = match SingleScalarDependence::put_multiple(
        &dep1,
        &dep2,
        S::from(0u8),
    ) {
        Some(point) => point,
        None => {
            return None;
        },
    };
    let point2: Vector<S> = match SingleScalarDependence::put_multiple(
        &dep1,
        &dep2,
        S::from(1u8),
    ) {
        Some(point) => point,
        None => {
            return None;
        },
    };
    Some(Line::from_two_points(point1, &point2))
}

} // verus!
