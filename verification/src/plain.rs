//! Planes of space, each given by its normal and an offset.

pub mod intersection;
pub mod line_relations;
pub mod relations;

use crate::line::relations::LineRelations;
use crate::line::Line;
use crate::math::dependence::PlaneEquation;
use crate::math::equation::EquationSolution;
use crate::plain::line_relations::PlainLineRelations;
use crate::scalar::{
    absolute, is_zero, magnitude, minus, negate, negated, over, plus, times, vanishes,
    well_behaved, Metric, Scalar,
};
use crate::vector::Vector;
use vstd::prelude::*;

verus! {

/// Why a plane, or a distance between planes, could not be had.
#[derive(Clone, Copy, Debug, PartialEq, Eq)]
pub enum PlainError {
    /// The two directions given are linearly dependent.
    DependentDirections,
    /// The three points given lie on one line.
    CollinearPoints,
    /// The two lines given unite: infinitely many planes hold them.
    UnitingLines,
    /// The two lines given are foreign: no plane holds them.
    ForeignLines,
    /// The normals of the two planes have no common ratio: the planes are
    /// not parallel, or both normals are null.
    NotParallel,
    /// No line of intersection could be derived for the two planes.
    NoIntersectionLine,
}

/// The plane of the points `p` with `plumb . p + constant_d = 0`.
#[derive(Clone, Copy, Debug, PartialEq)]
pub struct Plain<S> {
    /// The normal of the plane.
    pub plumb: Vector<S>,
    pub constant_d: S,
}

impl<S: Scalar> Plain<S> {
    /// The plane through `origin` along two directions: its normal is
    /// their vector product.
    pub open spec fn spanned(origin: Vector<S>, dir1: Vector<S>, dir2: Vector<S>) -> Self {
        let plumb = dir1.cross(dir2);
        Plain { plumb, constant_d: negated(plumb.dot(origin)) }
    }

    /// The plane through `origin` along two directions, where they are
    /// independent.
    pub open spec fn built(origin: Vector<S>, dir1: Vector<S>, dir2: Vector<S>) -> Result<
        Self,
        PlainError,
    > {
        if dir1.lindep(dir2) {
            Err(PlainError::DependentDirections)
        } else {
            Ok(Self::spanned(origin, dir1, dir2))
        }
    }

    /// The plane that holds two lines: through the first line and the
    /// second line's point where they are parallel, through their common
    /// point along both directions where they intersect.
    pub open spec fn holding<R: Fn(S) -> S, A: Fn(S) -> S>(
        line1: Line<S>,
        line2: Line<S>,
        m: Metric<S, R, A>,
    ) -> Result<Self, PlainError> {
        match LineRelations::relation(line1, line2, m) {
            LineRelations::Parallel(_) => Self::built(
                line1.point,
                line1.direction,
                line2.point.difference(line1.point),
            ),
            LineRelations::Intersect(point, _) => Ok(
                Self::spanned(point, line1.direction, line2.direction),
            ),
            LineRelations::Unite => Err(PlainError::UnitingLines),
            LineRelations::Foreign(_, _) => Err(PlainError::ForeignLines),
        }
    }

    /// The plane through three points, where they do not lie on one line.
    pub open spec fn through(point1: Vector<S>, point2: Vector<S>, point3: Vector<S>) -> Result<
        Self,
        PlainError,
    > {
        if point2.difference(point1).lindep(point3.difference(point1)) {
            Err(PlainError::CollinearPoints)
        } else {
            Ok(Self::spanned(point1, point2.difference(point1), point3.difference(point1)))
        }
    }

    /// The four coefficients of the plane's equation.
    pub open spec fn equation(self) -> PlaneEquation<S> {
        (self.plumb.0, self.plumb.1, self.plumb.2, self.constant_d)
    }

    /// The left side of the plane's equation at a point.
    pub open spec fn value(self, p: Vector<S>) -> S {
        plus(self.plumb.dot(p), self.constant_d)
    }

    /// The distance from the plane to a point.
    pub open spec fn distance<R: Fn(S) -> S, A: Fn(S) -> S>(
        self,
        p: Vector<S>,
        m: Metric<S, R, A>,
    ) -> S {
        over(magnitude(self.value(p)), self.plumb.norm(m))
    }

    /// The point satisfies the plane's equation.
    pub open spec fn contains(self, p: Vector<S>) -> bool {
        is_zero(self.value(p))
    }

    /// The plane contains the line's point, and the line's direction is
    /// orthogonal to the normal.
    pub open spec fn holds(self, line: Line<S>) -> bool {
        self.contains(line.point) && is_zero(line.direction.dot(self.plumb))
    }

    /// The angle between the plane and a vector: a right angle less the
    /// angle between the normal and the vector.
    pub open spec fn inclination<R: Fn(S) -> S, A: Fn(S) -> S>(
        self,
        v: Vector<S>,
        m: Metric<S, R, A>,
    ) -> S {
        minus(m.right_angle(), self.plumb.angle(v, m))
    }

    /// The angle between two planes: that of their normals, folded into
    /// the first quadrant.
    pub open spec fn acute_angle<R: Fn(S) -> S, A: Fn(S) -> S>(
        self,
        other: Self,
        m: Metric<S, R, A>,
    ) -> S {
        m.folded(self.plumb.angle(other.plumb, m))
    }

    /// How a line lies to the plane, by the roots of the plane's equation
    /// along the line.
    pub open spec fn line_relation<R: Fn(S) -> S, A: Fn(S) -> S>(
        self,
        line: Line<S>,
        m: Metric<S, R, A>,
    ) -> PlainLineRelations<S> {
        match EquationSolution::solve(self.plumb.dot(line.direction), self.value(line.point)) {
            EquationSolution::Real(t) => PlainLineRelations::Intersect(
                line.at(t),
                magnitude(self.inclination(line.direction, m)),
            ),
            EquationSolution::NoSolution => PlainLineRelations::Parallel(
                self.distance(line.point, m),
            ),
            EquationSolution::Undefined => PlainLineRelations::Containing,
        }
    }

    /// The constant distance between two planes whose normals have a
    /// ratio: the difference of the offsets, the second scaled by that
    /// ratio, over the length of the first normal.
    pub open spec fn gap<R: Fn(S) -> S, A: Fn(S) -> S>(
        self,
        other: Self,
        m: Metric<S, R, A>,
    ) -> Result<S, PlainError> {
        match self.plumb.ratio(other.plumb) {
            Ok(ratio) => Ok(
                over(
                    magnitude(minus(self.constant_d, times(other.constant_d, ratio))),
                    self.plumb.norm(m),
                ),
            ),
            Err(_) => Err(PlainError::NotParallel),
        }
    }

    /// Builds the plane through an origin along two directions, whatever
    /// the directions are.
    pub(crate) fn span(origin: &Vector<S>, dir1: &Vector<S>, dir2: &Vector<S>) -> (r: Plain<S>)
        requires
            well_behaved::<S>(),
        ensures
            r == Self::spanned(*origin, *dir1, *dir2),
    {
        let plumb: Vector<S> = Vector::vectoric_product(dir1, dir2);
        let constant_d: S = negate(plumb * *origin);
        Plain { plumb, constant_d }
    }

    /// Generates a plane from an origin and two directions. Fails where
    /// the two directions are linearly dependent and span no plane.
    pub fn new(origin: &Vector<S>, dir1: &Vector<S>, dir2: &Vector<S>) -> (r: Result<
        Plain<S>,
        PlainError,
    >)
        requires
            well_behaved::<S>(),
        ensures
            r == Self::built(*origin, *dir1, *dir2),
    {
        if dir1.is_lindep(dir2) {
            return Err(PlainError::DependentDirections);
        }
        Ok(Self::span(origin, dir1, dir2))
    }

    /// Generates a plane from two intersecting or parallel lines. Fails
    /// where the lines unite or are foreign.
    pub fn from_two_lines<R: Fn(S) -> S, A: Fn(S) -> S>(
        line1: &Line<S>,
        line2: &Line<S>,
        m: &Metric<S, R, A>,
    ) -> (r: Result<Plain<S>, PlainError>)
        requires
            well_behaved::<S>(),
            m.wf(),
            line1.wf(),
        ensures
            r == Self::holding(*line1, *line2, *m),
    {
        match LineRelations::of(line1, line2, m) {
            LineRelations::Parallel(_) => {
                let dir2: Vector<S> = line2.point - line1.point;
                Plain::new(&line1.point, &line1.direction, &dir2)
            },
            LineRelations::Intersect(intersection, _) => {
                Plain::new(&intersection, &line1.direction, &line2.direction)
            },
            LineRelations::Unite => Err(PlainError::UnitingLines),
            LineRelations::Foreign(_, _) => Err(PlainError::ForeignLines),
        }
    }

    /// Generates a plane from three points. Fails where the three points
    /// lie on one line.
    pub fn from_three_points(point1: &Vector<S>, point2: &Vector<S>, point3: &Vector<S>) -> (r:
        Result<Plain<S>, PlainError>)
        requires
            well_behaved::<S>(),
        ensures
            r == Self::through(*point1, *point2, *point3),
    {
        let dir1: Vector<S> = *point2 - *point1;
        let dir2: Vector<S> = *point3 - *point1;
        match Plain::new(point1, &dir1, &dir2) {
            Ok(plain) => Ok(plain),
            Err(_) => Err(PlainError::CollinearPoints),
        }
    }

    /// Evaluates the left side of the plane's equation at a point.
    pub fn evaluate(&self, point: &Vector<S>) -> (r: S)
        requires
            well_behaved::<S>(),
        ensures
            r == self.value(*point),
    {
        self.plumb * *point + self.constant_d
    }

    /// Calculates the distance between a given point and this plane.
    pub fn distance_from<R: Fn(S) -> S, A: Fn(S) -> S>(
        &self,
        point: &Vector<S>,
        m: &Metric<S, R, A>,
    ) -> (r: S)
        requires
            well_behaved::<S>(),
            m.wf(),
        ensures
            r == self.distance(*point, *m),
    {
        absolute(self.evaluate(point)) / self.plumb.length(m)
    }

    /// Checks whether the plane contains a given point.
    pub fn contains_point(&self, point: &Vector<S>) -> (r: bool)
        requires
            well_behaved::<S>(),
        ensures
            r == self.contains(*point),
    {
        vanishes(self.evaluate(point))
    }

    /// Checks whether the plane contains a given line.
    pub fn contains_line(&self, line: &Line<S>) -> (r: bool)
        requires
            well_behaved::<S>(),
        ensures
            r == self.holds(*line),
    {
        self.contains_point(&line.point) && vanishes(line.direction * self.plumb)
    }

    /// Computes the angle between the plane and a given vector.
    pub fn angle_with_vector<R: Fn(S) -> S, A: Fn(S) -> S>(
        &self,
        vector: &Vector<S>,
        m: &Metric<S, R, A>,
    ) -> (r: S)
        requires
            well_behaved::<S>(),
            m.wf(),
        ensures
            r == self.inclination(*vector, *m),
    {
        let half: S = m.pi / S::from(2u8);
        half - Vector::angle_between(&self.plumb, vector, m)
    }

    /// Computes the angle between the plane and a given line, from zero to
    /// a right angle.
    pub fn angle_with_line<R: Fn(S) -> S, A: Fn(S) -> S>(
        &self,
        line: &Line<S>,
        m: &Metric<S, R, A>,
    ) -> (r: S)
        requires
            well_behaved::<S>(),
            m.wf(),
        ensures
            r == magnitude(self.inclination(line.direction, *m)),
    {
        let angle: S = self.angle_with_vector(&line.direction, m);
        absolute(angle)
    }

    /// Computes the angle between two planes, from zero to a right angle.
    pub fn angle_between<R: Fn(S) -> S, A: Fn(S) -> S>(
        plain1: &Plain<S>,
        plain2: &Plain<S>,
        m: &Metric<S, R, A>,
    ) -> (r: S)
        requires
            well_behaved::<S>(),
            m.wf(),
        ensures
            r == plain1.acute_angle(*plain2, *m),
    {
        let angle: S = Vector::angle_between(&plain1.plumb, &plain2.plumb, m);
        m.fold(angle)
    }

    /// Computes the relation between the plane and a line.
    pub fn relation_with_line<R: Fn(S) -> S, A: Fn(S) -> S>(
        &self,
        line: &Line<S>,
        m: &Metric<S, R, A>,
    ) -> (r: PlainLineRelations<S>)
        requires
            well_behaved::<S>(),
            m.wf(),
        ensures
            r == self.line_relation(*line, *m),
    {
        let coefficient: S = self.plumb * line.direction;
        let constant: S = self.plumb * line.point + self.constant_d;
        match EquationSolution::compute(coefficient, constant) {
            EquationSolution::Real(t) => {
                let intersection: Vector<S> = line.point_at(t);
                let angle: S = self.angle_with_line(line, m);
                PlainLineRelations::Intersect(intersection, angle)
            },
            EquationSolution::NoSolution => {
                let distance: S = self.distance_from(&line.point, m);
                PlainLineRelations::Parallel(distance)
            },
            EquationSolution::Undefined => PlainLineRelations::Containing,
        }
    }

    /// Computes the constant distance between two planes. Fails where
    /// their normals have no common ratio.
    pub fn distance_between<R: Fn(S) -> S, A: Fn(S) -> S>(
        plain1: &Plain<S>,
        plain2: &Plain<S>,
        m: &Metric<S, R, A>,
    ) -> (r: Result<S, PlainError>)
        requires
            well_behaved::<S>(),
            m.wf(),
        ensures
            r == plain1.gap(*plain2, *m),
            r is Err <==> !plain1.plumb.lindep(plain2.plumb) || (plain1.plumb.null()
                && plain2.plumb.null()),
    {
        match plain1.plumb / plain2.plumb {
            Ok(plumb_ratio) => {
                let d2: S = plain2.constant_d * plumb_ratio;
                let difference: S = absolute(plain1.constant_d - d2);
                Ok(difference / plain1.plumb.length(m))
            },
            Err(_) => Err(PlainError::NotParallel),
        }
    }
}

} // verus!
