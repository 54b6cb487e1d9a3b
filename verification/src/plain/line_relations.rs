//! The relation between a plane and a line.

use crate::vector::Vector;
use vstd::prelude::*;

verus! {

/// How a line lies to a plane.
#[derive(Clone, Copy, Debug, PartialEq)]
pub enum PlainLineRelations<S> {
    /// The plane contains the line.
    Containing,
    /// The line meets the plane in one point, at an angle.
    Intersect(Vector<S>, S),
    /// The line is parallel to the plane, at a distance.
    Parallel(S),
}

} // verus!
