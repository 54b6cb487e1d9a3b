//! The relation between two planes.

use crate::line::Line;
use crate::plain::intersection::{crossing, intersection};
use crate::plain::{Plain, PlainError};
use crate::scalar::{equal, same, well_behaved, Metric, Scalar};
use vstd::prelude::*;

verus! {

/// How two planes lie to each other.
#[derive(Clone, Copy, Debug, PartialEq)]
pub enum PlainRelations<S> {
    /// The two planes share the exact same points.
    Unite,
    /// The two planes have a constant distance between them.
    Parallel(S),
    /// The two planes share a line and have an angle between them.
    Intersect(Line<S>, S),
}

impl<S: Scalar> PlainRelations<S> {
    /// The relation of two planes. Where their normals are independent
    /// they intersect, in the line that the dependencies between
    /// coordinates give. Elsewhere they unite where their offsets compare
    /// equal, and are parallel at their constant distance.
    pub open spec fn relation<R: Fn(S) -> S, A: Fn(S) -> S>(
        plain1: Plain<S>,
        plain2: Plain<S>,
        m: Metric<S, R, A>,
    ) -> Result<Self, PlainError> {
        if !plain1.plumb.lindep(plain2.plumb) {
            match crossing(plain1, plain2) {
                Some(line) => Ok(PlainRelations::Intersect(line, plain1.acute_angle(plain2, m))),
                None => Err(PlainError::NoIntersectionLine),
            }
        } else if same(plain1.constant_d, plain2.constant_d) {
            Ok(PlainRelations::Unite)
        } else {
            match plain1.gap(plain2, m) {
                Ok(distance) => Ok(PlainRelations::Parallel(distance)),
                Err(e) => Err(e),
            }
        }
    }

    /// Finds the relation between two planes. Fails where the planes
    /// intersect and no line of intersection could be derived, and where
    /// both normals are null and the offsets differ.
    pub fn of<R: Fn(S) -> S, A: Fn(S) -> S>(
        plain1: &Plain<S>,
        plain2: &Plain<S>,
        m: &Metric<S, R, A>,
    ) -> (r: Result<PlainRelations<S>, PlainError>)
        requires
            well_behaved::<S>(),
            m.wf(),
        ensures
            r == Self::relation(*plain1, *plain2, *m),
    {
        if !plain1.plumb.is_lindep(&plain2.plumb) {
            let angle: S = Plain::angle_between(plain1, plain2, m);
            return match intersection(plain1, plain2) {
                Some(line) => Ok(PlainRelations::Intersect(line, angle)),
                None => Err(PlainError::NoIntersectionLine),
            };
        }
        if equal(plain1.constant_d, plain2.constant_d) {
            Ok(PlainRelations::Unite)
        } else {
            match Plain::distance_between(plain1, plain2, m) {
                Ok(distance) => Ok(PlainRelations::Parallel(distance)),
                Err(e) => Err(e),
            }
        }
    }
}

} // verus!
