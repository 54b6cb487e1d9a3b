//! The relation between two lines.

use crate::line::Line;
use crate::plain::Plain;
use crate::scalar::{is_zero, vanishes, well_behaved, Metric, Scalar};
use crate::vector::Vector;
use vstd::prelude::*;

verus! {

/// How two lines lie to each other. Exactly one variant describes a pair.
#[derive(Clone, Copy, Debug, PartialEq)]
pub enum LineRelations<S> {
    /// The two lines share the exact same points.
    Unite,
    /// The two lines have a constant distance between them.
    Parallel(S),
    /// The two lines share a point and have an angle between them.
    Intersect(Vector<S>, S),
    /// The two lines have no common plane. They have a distance and an
    /// angle.
    Foreign(S, S),
}

impl<S: Scalar> LineRelations<S> {
    /// The relation of two lines. Where their directions are dependent, the
    /// distance of the second line's point from the first line decides
    /// between unity and parallelism. Elsewhere they intersect where they
    /// share a point, and are foreign at the distance of the second line's
    /// point from the plane through the first line along both directions.
    pub open spec fn relation<R: Fn(S) -> S, A: Fn(S) -> S>(
        line1: Line<S>,
        line2: Line<S>,
        m: Metric<S, R, A>,
    ) -> Self {
        if line1.direction.lindep(line2.direction) {
            let distance = line1.distance(line2.point, m);
            if is_zero(distance) {
                LineRelations::Unite
            } else {
                LineRelations::Parallel(distance)
            }
        } else {
            let angle = line1.acute_angle(line2, m);
            match line1.meeting(line2) {
                Some(point) => LineRelations::Intersect(point, angle),
                None => LineRelations::Foreign(
                    Plain::spanned(line1.point, line1.direction, line2.direction).distance(
                        line2.point,
                        m,
                    ),
                    angle,
                ),
            }
        }
    }

    /// Finds the relation between two lines.
    pub fn of<R: Fn(S) -> S, A: Fn(S) -> S>(
        line1: &Line<S>,
        line2: &Line<S>,
        m: &Metric<S, R, A>,
    ) -> (r: LineRelations<S>)
        requires
            well_behaved::<S>(),
            m.wf(),
            line1.wf(),
        ensures
            r == Self::relation(*line1, *line2, *m),
    {
        if line1.direction.is_lindep(&line2.direction) {
            let distance: S = line1.distance_from_point(&line2.point, m);
            if vanishes(distance) {
                LineRelations::Unite
            } else {
                LineRelations::Parallel(distance)
            }
        } else {
            let angle: S = Line::angle_between(line1, line2, m);
            match Line::intersection(line1, line2) {
                Some(intersection) => LineRelations::Intersect(intersection, angle),
                None => {
                    let common_plain: Plain<S> = Plain::span(
                        &line1.point,
                        &line1.direction,
                        &line2.direction,
                    );
                    let distance: S = common_plain.distance_from(&line2.point, m);
                    LineRelations::Foreign(distance, angle)
                },
            }
        }
    }
}

} // verus!
