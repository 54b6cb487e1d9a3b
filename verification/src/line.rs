//! Lines of space, each given by a point and a direction.

pub mod relations;

use crate::math::equation::{Equation, EquationSolution};
use crate::scalar::{
    below, is_zero, negate, negated, over, vanishes, well_behaved, zero, Metric, Scalar,
};
use vstd::pervasive::unreached;
use crate::vector::Vector;
use vstd::prelude::*;

verus! {

/// The line of the points `point + t * direction`.
#[derive(Clone, Copy, Debug, PartialEq)]
pub struct Line<S> {
    pub point: Vector<S>,
    pub direction: Vector<S>,
}

impl<S: Scalar> Line<S> {
    /// The direction has a square that is not zero. Constructors do not
    /// check this; the distance to a point is defined for such lines only.
    pub open spec fn wf(self) -> bool {
        !is_zero(self.direction.dot(self.direction))
    }

    /// The point of the line at parameter `t`.
    pub open spec fn at(self, t: S) -> Vector<S> {
        self.point.sum(self.direction.scaled(t))
    }

    /// The parameter of the foot of the perpendicular from `p`: the root
    /// `t` of `direction . (point - p + t * direction) = 0`.
    pub open spec fn foot_parameter(self, p: Vector<S>) -> S {
        over(
            negated(self.direction.dot(self.point.difference(p))),
            self.direction.dot(self.direction),
        )
    }

    /// The vector from `p` to the foot of the perpendicular from `p`.
    pub open spec fn perpendicular(self, p: Vector<S>) -> Vector<S> {
        self.point.difference(p).sum(self.direction.scaled(self.foot_parameter(p)))
    }

    /// The distance from the line to `p`: the length of the perpendicular.
    pub open spec fn distance<R: Fn(S) -> S, A: Fn(S) -> S>(
        self,
        p: Vector<S>,
        m: Metric<S, R, A>,
    ) -> S {
        self.perpendicular(p).norm(m)
    }

    /// The equation that the parameters `(t, s)` of a common point
    /// `a + t * u = b + s * v` of two lines satisfy on one axis, as the
    /// coefficients of `u * t - v * s + (a - b) = 0`.
    pub open spec fn axis_equation(u: S, v: S, gap: S) -> Equation<S> {
        (u, negated(v), gap)
    }

    /// The parameters `(t, s)` at which two lines may meet, solved from two
    /// of the three axis equations. An axis is left out only where both of
    /// its coefficients are zero: the first such of `X` and `Y`.
    pub open spec fn meeting_parameters(self, other: Self) -> Option<(S, S)> {
        let gap = self.point.difference(other.point);
        let eq1 = Self::axis_equation(self.direction.0, other.direction.0, gap.0);
        let eq2 = Self::axis_equation(self.direction.1, other.direction.1, gap.1);
        let eq3 = Self::axis_equation(self.direction.2, other.direction.2, gap.2);
        if is_zero(eq1.0) && is_zero(eq1.1) {
            EquationSolution::solve_system(eq3, eq2)
        } else if is_zero(eq2.0) && is_zero(eq2.1) {
            EquationSolution::solve_system(eq1, eq3)
        } else {
            EquationSolution::solve_system(eq1, eq2)
        }
    }

    /// The one point that two lines share: the point of the first at its
    /// meeting parameter, where the point of the second at its own compares
    /// equal to it.
    pub open spec fn meeting(self, other: Self) -> Option<Vector<S>> {
        match self.meeting_parameters(other) {
            Some((t, s)) => if self.at(t).equals(other.at(s)) {
                Some(self.at(t))
            } else {
                None
            },
            None => None,
        }
    }

    /// The angle between two undirected lines: that of their directions,
    /// folded into the first quadrant.
    pub open spec fn acute_angle<R: Fn(S) -> S, A: Fn(S) -> S>(
        self,
        other: Self,
        m: Metric<S, R, A>,
    ) -> S {
        m.folded(self.direction.angle(other.direction, m))
    }

    /// The line through a point with a direction.
    pub fn new(point: Vector<S>, direction: Vector<S>) -> (r: Line<S>)
        ensures
            r.point == point,
            r.direction == direction,
    {
        Line { point, direction }
    }

    /// The line through two points: it starts at the first and has the
    /// direction from the first to the second.
    pub fn from_two_points(point1: Vector<S>, point2: &Vector<S>) -> (r: Line<S>)
        requires
            well_behaved::<S>(),
        ensures
            r.point == point1,
            r.direction == point2.difference(point1),
    {
        Line { point: point1, direction: *point2 - point1 }
    }

    /// Evaluates the line at a parameter.
    pub fn point_at(&self, t: S) -> (r: Vector<S>)
        requires
            well_behaved::<S>(),
        ensures
            r == self.at(t),
    {
        self.point + self.direction.scale(t)
    }

    /// Whether a point lies on the line: its distance from it is zero.
    pub fn is_on_line<R: Fn(S) -> S, A: Fn(S) -> S>(
        &self,
        other_point: &Vector<S>,
        m: &Metric<S, R, A>,
    ) -> (r: bool)
        requires
            well_behaved::<S>(),
            m.wf(),
            self.wf(),
        ensures
            r == is_zero(self.distance(*other_point, *m)),
    {
        vanishes(self.distance_from_point(other_point, m))
    }

    /// The distance between the line and a point, measured along the
    /// perpendicular from the point.
    pub fn distance_from_point<R: Fn(S) -> S, A: Fn(S) -> S>(
        &self,
        other_point: &Vector<S>,
        m: &Metric<S, R, A>,
    ) -> (r: S)
        requires
            well_behaved::<S>(),
            m.wf(),
            self.wf(),
        ensures
            r == self.distance(*other_point, *m),
            !below(r, zero::<S>()),
    {
        let coefficient: S = self.direction * self.direction;
        let sum: S = self.direction * (self.point - *other_point);
        match EquationSolution::compute(coefficient, sum) {
            EquationSolution::Real(t) => {
                let difference: Vector<S> = self.point - *other_point + self.direction.scale(t);
                difference.length(m)
            },
            _ => unreached(),
        }
    }

    /// Finds the intersection of two lines, if there is exactly one point
    /// of it.
    pub fn intersection(line1: &Line<S>, line2: &Line<S>) -> (r: Option<Vector<S>>)
        requires
            well_behaved::<S>(),
        ensures
            r == line1.meeting(*line2),
    {
        let gap: Vector<S> = line1.point - line2.point;
        let eq1: Equation<S> = (line1.direction.0, negate(line2.direction.0), gap.0);
        let eq2: Equation<S> = (line1.direction.1, negate(line2.direction.1), gap.1);
        let eq3: Equation<S> = (line1.direction.2, negate(line2.direction.2), gap.2);
        let result: Option<(S, S)>;
        if vanishes(eq1.0) && vanishes(eq1.1) {
            result = EquationSolution::compute_multiple(eq3, eq2);
        } else if vanishes(eq2.0) && vanishes(eq2.1) {
            result = EquationSolution::compute_multiple(eq1, eq3);
        } else {
            result = EquationSolution::compute_multiple(eq1, eq2);
        }
        match result {
            Some((t, s)) => {
                let intersection_t: Vector<S> = line1.point_at(t);
                let intersection_s: Vector<S> = line2.point_at(s);
                if intersection_t.coincides(&intersection_s) {
                    Some(intersection_t)
                } else {
                    None
                }
            },
            None => None,
        }
    }

    /// Finds the angle between two lines, in radians, from zero to a right
    /// angle.
    pub fn angle_between<R: Fn(S) -> S, A: Fn(S) -> S>(
        line1: &Line<S>,
        line2: &Line<S>,
        m: &Metric<S, R, A>,
    ) -> (r: S)
        requires
            well_behaved::<S>(),
            m.wf(),
        ensures
            r == line1.acute_angle(*line2, *m),
    {
        let angle: S = Vector::angle_between(&line1.direction, &line2.direction, m);
        m.fold(angle)
    }
}

} // verus!
