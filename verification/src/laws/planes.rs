//! Laws of planes: the line in which two planes intersect lies in both.

use crate::laws::dependencies::{
    assembled_satisfies_both, derived_is_equation, eliminated_is_combination, real_equation,
    residual, substituted_is_equation, zero_is_zero,
};
use crate::laws::equations::solution_is_root;
use crate::laws::reals::{
    along_chord, along_direction, cancelled, commutes, difference_times, same_product,
    scaled_sum_of_three, zero_product,
};
use crate::laws::vectors::{
    cross_is_orthogonal, dot_is_real_dot, independent_vectors_have_a_normal, real_dot,
};
use crate::math::equation::EquationSolution;
use crate::scalar::Metric;
use crate::line::Line;
use crate::math::dependence::{
    coefficient, elimination_defined, has_axis, is_full, PlaneEquation, SingleScalarDependence,
};
use crate::plain::intersection::{crossing, second_dependence};
use crate::plain::Plain;
use crate::scalar::{exact, minus, one, over, plus, times, zero, Scalar};
use crate::vector::Vector;
use vstd::prelude::*;

verus! {

/// The left side of a plane's equation at a point has the real value of
/// that equation.
proof fn value_is_real_equation<S: Scalar>(
    value: spec_fn(S) -> real,
    plain: Plain<S>,
    p: Vector<S>,
)
    requires
        exact(value),
    ensures
        value(plain.value(p)) == real_equation(value, plain.equation(), p),
        plain.contains(p) <==> real_equation(value, plain.equation(), p) == 0real,
{
    dot_is_real_dot(value, plain.plumb, p);
    zero_is_zero(value, plain.value(p));
}

/// A plane equation gives a dependence by itself exactly where one of its
/// coefficients is zero.
proof fn derived_unless_full<S: Scalar>(eq: PlaneEquation<S>)
    ensures
        SingleScalarDependence::derived(eq.0, eq.1, eq.2, eq.3) is Err <==> is_full(eq),
{
}

/// A point that satisfies the two dependencies of a pair of plane
/// equations satisfies both equations.
pub proof fn dependencies_give_both_equations<S: Scalar>(
    value: spec_fn(S) -> real,
    eq1: PlaneEquation<S>,
    eq2: PlaneEquation<S>,
    p: Vector<S>,
)
    requires
        exact(value),
        has_axis(eq1),
        has_axis(eq2),
        elimination_defined(eq1, eq2),
        second_dependence(SingleScalarDependence::derived_from(eq1, eq2), eq1, eq2) is Some,
        residual(value, SingleScalarDependence::derived_from(eq1, eq2), p) == 0real,
        residual(
            value,
            second_dependence(SingleScalarDependence::derived_from(eq1, eq2), eq1, eq2)->Some_0,
            p,
        ) == 0real,
    ensures
        real_equation(value, eq1, p) == 0real,
        real_equation(value, eq2, p) == 0real,
{
    let dep1 = SingleScalarDependence::derived_from(eq1, eq2);
    let dep2 = second_dependence(dep1, eq1, eq2)->Some_0;
    let first = SingleScalarDependence::derived(eq1.0, eq1.1, eq1.2, eq1.3);
    let second = SingleScalarDependence::derived(eq2.0, eq2.1, eq2.2, eq2.3);
    derived_unless_full(eq1);
    derived_unless_full(eq2);
    zero_is_zero(value, eq1.0);
    zero_is_zero(value, eq1.1);
    zero_is_zero(value, eq1.2);
    zero_is_zero(value, eq2.0);
    zero_is_zero(value, eq2.1);
    zero_is_zero(value, eq2.2);
    if first is Ok {
        // the first dependence is the first equation; the second comes from the second
        derived_is_equation(value, eq1, p);
        zero_product(residual(value, dep1, p), value(coefficient(eq1, dep1.target)));
        if second is Ok {
            derived_is_equation(value, eq2, p);
        } else {
            substituted_is_equation(value, dep1, eq2, p);
        }
        zero_product(residual(value, dep2, p), value(coefficient(eq2, dep2.target)));
    } else if second is Ok {
        // the first dependence is the second equation; the second comes from the first
        derived_is_equation(value, eq2, p);
        zero_product(residual(value, dep1, p), value(coefficient(eq2, dep1.target)));
        substituted_is_equation(value, dep1, eq1, p);
        zero_product(residual(value, dep2, p), value(coefficient(eq1, dep2.target)));
    } else {
        // the first dependence combines both equations; the second comes from the first
        let multiplier = over(eq1.0, eq2.0);
        let z_coefficient = minus(eq1.2, times(eq2.2, multiplier));
        zero_is_zero(value, z_coefficient);
        eliminated_is_combination(value, eq1, eq2, p);
        zero_product(residual(value, dep1, p), value(z_coefficient));
        substituted_is_equation(value, dep1, eq1, p);
        zero_product(residual(value, dep2, p), value(coefficient(eq1, dep2.target)));
        cancelled(value(multiplier), value(eq2.0), value(eq1.0), real_equation(value, eq2, p));
    }
}

/// The line through two points of a plane lies in the plane: the plane
/// holds it, and contains its point at every parameter.
pub proof fn chord_lies_in_plane<S: Scalar>(
    value: spec_fn(S) -> real,
    plain: Plain<S>,
    point1: Vector<S>,
    point2: Vector<S>,
    t: S,
)
    requires
        exact(value),
        real_equation(value, plain.equation(), point1) == 0real,
        real_equation(value, plain.equation(), point2) == 0real,
    ensures
        ({
            let line = Line { point: point1, direction: point2.difference(point1) };
            &&& plain.holds(line)
            &&& plain.contains(line.at(t))
        }),
{
    let line = Line { point: point1, direction: point2.difference(point1) };
    let n = plain.plumb;
    let (n0, n1, n2) = (value(n.0), value(n.1), value(n.2));
    let (x0, x1, x2) = (value(point1.0), value(point1.1), value(point1.2));
    let (y0, y1, y2) = (value(point2.0), value(point2.1), value(point2.2));
    let direction = line.direction;
    value_is_real_equation(value, plain, point1);
    // the direction is orthogonal to the normal
    dot_is_real_dot(value, direction, n);
    same_product(value(direction.0), y0 - x0, n0);
    same_product(value(direction.1), y1 - x1, n1);
    same_product(value(direction.2), y2 - x2, n2);
    difference_times(y0, x0, n0);
    difference_times(y1, x1, n1);
    difference_times(y2, x2, n2);
    zero_is_zero(value, direction.dot(n));
    // the point at every parameter satisfies the equation
    let at = line.at(t);
    let s = value(t);
    value_is_real_equation(value, plain, at);
    same_product(value(direction.0), y0 - x0, s);
    same_product(value(direction.1), y1 - x1, s);
    same_product(value(direction.2), y2 - x2, s);
    same_product(value(at.0), x0 + s * (y0 - x0), n0);
    same_product(value(at.1), x1 + s * (y1 - x1), n1);
    same_product(value(at.2), x2 + s * (y2 - x2), n2);
    along_chord(n0, x0, y0, s);
    along_chord(n1, x1, y1, s);
    along_chord(n2, x2, y2, s);
    let (a0, a1, a2) = (n0 * y0 - n0 * x0, n1 * y1 - n1 * x1, n2 * y2 - n2 * x2);
    scaled_sum_of_three(s, a0, a1, a2);
    zero_product(a0 + a1 + a2, s);
}

/// The line in which two planes intersect lies in both planes: each plane
/// holds it, and contains its point at every parameter. Left out are the
/// pairs of planes with full equations between which elimination leaves no
/// coefficient of `z`: there the first dependence divides by zero.
pub proof fn intersection_lies_in_both<S: Scalar>(
    value: spec_fn(S) -> real,
    plain1: Plain<S>,
    plain2: Plain<S>,
)
    requires
        exact(value),
        crossing(plain1, plain2) is Some,
        elimination_defined(plain1.equation(), plain2.equation()),
    ensures
        ({
            let line = crossing(plain1, plain2)->Some_0;
            &&& plain1.holds(line)
            &&& plain2.holds(line)
            &&& forall|t: S| #[trigger] plain1.contains(line.at(t)) && plain2.contains(line.at(t))
        }),
{
    let eq1 = plain1.equation();
    let eq2 = plain2.equation();
    let dep1 = SingleScalarDependence::derived_from(eq1, eq2);
    let dep2 = second_dependence(dep1, eq1, eq2)->Some_0;
    let point1 = SingleScalarDependence::assembled(dep1, dep2, zero::<S>())->Some_0;
    let point2 = SingleScalarDependence::assembled(dep1, dep2, one::<S>())->Some_0;
    let line = crossing(plain1, plain2)->Some_0;
    dependencies_are_well_formed(value, eq1, eq2);
    assembled_satisfies_both(value, dep1, dep2, zero::<S>());
    assembled_satisfies_both(value, dep1, dep2, one::<S>());
    dependencies_give_both_equations(value, eq1, eq2, point1);
    dependencies_give_both_equations(value, eq1, eq2, point2);
    chord_lies_in_plane(value, plain1, point1, point2, zero::<S>());
    chord_lies_in_plane(value, plain2, point1, point2, zero::<S>());
    assert forall|t: S| #[trigger] plain1.contains(line.at(t)) && plain2.contains(line.at(t)) by {
        chord_lies_in_plane(value, plain1, point1, point2, t);
        chord_lies_in_plane(value, plain2, point1, point2, t);
    }
}

/// The two dependencies of a pair of plane equations are well formed.
proof fn dependencies_are_well_formed<S: Scalar>(
    value: spec_fn(S) -> real,
    eq1: PlaneEquation<S>,
    eq2: PlaneEquation<S>,
)
    requires
        exact(value),
        has_axis(eq1),
        has_axis(eq2),
        second_dependence(SingleScalarDependence::derived_from(eq1, eq2), eq1, eq2) is Some,
    ensures
        SingleScalarDependence::derived_from(eq1, eq2).wf(),
        second_dependence(SingleScalarDependence::derived_from(eq1, eq2), eq1, eq2)->Some_0.wf(),
{
}

/// The plane through an origin along two directions contains the origin
/// and the origin moved by either direction.
pub proof fn spanned_plane_contains_its_points<S: Scalar>(
    value: spec_fn(S) -> real,
    origin: Vector<S>,
    dir1: Vector<S>,
    dir2: Vector<S>,
)
    requires
        exact(value),
    ensures
        ({
            let plain = Plain::spanned(origin, dir1, dir2);
            &&& plain.contains(origin)
            &&& plain.contains(origin.sum(dir1))
            &&& plain.contains(origin.sum(dir2))
        }),
{
    let plain = Plain::spanned(origin, dir1, dir2);
    let n = plain.plumb;
    cross_is_orthogonal(value, dir1, dir2);
    dot_is_real_dot(value, n, origin);
    dot_is_real_dot(value, n, dir1);
    dot_is_real_dot(value, n, dir2);
    value_is_real_equation(value, plain, origin);
    moved_point(value, plain, origin, dir1);
    moved_point(value, plain, origin, dir2);
}

/// The equation of a plane at a point moved by a vector is its value at
/// the point plus the scalar product of the normal and the vector.
proof fn moved_point<S: Scalar>(
    value: spec_fn(S) -> real,
    plain: Plain<S>,
    p: Vector<S>,
    by_vector: Vector<S>,
)
    requires
        exact(value),
    ensures
        real_equation(value, plain.equation(), p.sum(by_vector)) == real_equation(
            value,
            plain.equation(),
            p,
        ) + real_dot(value, plain.plumb, by_vector),
        plain.contains(p.sum(by_vector)) <==> real_equation(value, plain.equation(), p)
            + real_dot(value, plain.plumb, by_vector) == 0real,
{
    let n = plain.plumb;
    let q = p.sum(by_vector);
    value_is_real_equation(value, plain, q);
    along_direction(value(n.0), value(p.0), 1real, value(by_vector.0));
    along_direction(value(n.1), value(p.1), 1real, value(by_vector.1));
    along_direction(value(n.2), value(p.2), 1real, value(by_vector.2));
    same_product(value(q.0), value(p.0) + 1real * value(by_vector.0), value(n.0));
    same_product(value(q.1), value(p.1) + 1real * value(by_vector.1), value(n.1));
    same_product(value(q.2), value(p.2) + 1real * value(by_vector.2), value(n.2));
}

/// The plane through three points contains the three points.
pub proof fn three_points_lie_in_plane<S: Scalar>(
    value: spec_fn(S) -> real,
    point1: Vector<S>,
    point2: Vector<S>,
    point3: Vector<S>,
)
    requires
        exact(value),
    ensures
        ({
            let plain = Plain::spanned(point1, point2.difference(point1), point3.difference(point1));
            &&& plain.contains(point1)
            &&& plain.contains(point2)
            &&& plain.contains(point3)
        }),
{
    spanned_plane_contains_its_points(value, point1, point2.difference(point1), point3.difference(point1));
    assert(point1.sum(point2.difference(point1)) == point2) by {
        returns_to(value, point1.0, point2.0);
        returns_to(value, point1.1, point2.1);
        returns_to(value, point1.2, point2.2);
    }
    assert(point1.sum(point3.difference(point1)) == point3) by {
        returns_to(value, point1.0, point3.0);
        returns_to(value, point1.1, point3.1);
        returns_to(value, point1.2, point3.2);
    }
}

/// Adding a difference to what was taken away gives the other back.
proof fn returns_to<S: Scalar>(value: spec_fn(S) -> real, a: S, b: S)
    requires
        exact(value),
    ensures
        plus(a, minus(b, a)) == b,
{
    assert(value(plus(a, minus(b, a))) == value(a) + (value(b) - value(a)));
}

/// Where a line intersects a plane, the point of intersection lies in the
/// plane and on the line.
pub proof fn intersection_point_lies_in_plane<S: Scalar, R: Fn(S) -> S, A: Fn(S) -> S>(
    value: spec_fn(S) -> real,
    plain: Plain<S>,
    line: Line<S>,
    m: Metric<S, R, A>,
)
    requires
        exact(value),
        plain.line_relation(line, m) is Intersect,
    ensures
        plain.contains(plain.line_relation(line, m)->Intersect_0),
        exists|t: S| plain.line_relation(line, m)->Intersect_0 == #[trigger] line.at(t),
{
    let coefficient = plain.plumb.dot(line.direction);
    let constant = plain.value(line.point);
    let t = EquationSolution::solve(coefficient, constant)->Real_0;
    let point = line.at(t);
    solution_is_root(value, coefficient, constant);
    dot_is_real_dot(value, plain.plumb, line.direction);
    value_is_real_equation(value, plain, line.point);
    value_is_real_equation(value, plain, point);
    let n = plain.plumb;
    let s = value(t);
    along_direction(value(n.0), value(line.point.0), s, value(line.direction.0));
    along_direction(value(n.1), value(line.point.1), s, value(line.direction.1));
    along_direction(value(n.2), value(line.point.2), s, value(line.direction.2));
    same_product(
        value(point.0),
        value(line.point.0) + s * value(line.direction.0),
        value(n.0),
    );
    same_product(
        value(point.1),
        value(line.point.1) + s * value(line.direction.1),
        value(n.1),
    );
    same_product(
        value(point.2),
        value(line.point.2) + s * value(line.direction.2),
        value(n.2),
    );
    scaled_sum_of_three(
        s,
        value(n.0) * value(line.direction.0),
        value(n.1) * value(line.direction.1),
        value(n.2) * value(line.direction.2),
    );
    commutes(value(coefficient), s);
}

/// A plane that was built along two directions, neither of them null, has
/// a normal that is not null.
pub proof fn built_plane_has_a_normal<S: Scalar>(
    value: spec_fn(S) -> real,
    origin: Vector<S>,
    dir1: Vector<S>,
    dir2: Vector<S>,
)
    requires
        exact(value),
        !dir1.null(),
        !dir2.null(),
        Plain::built(origin, dir1, dir2) is Ok,
    ensures
        !Plain::built(origin, dir1, dir2)->Ok_0.plumb.null(),
{
    independent_vectors_have_a_normal(value, dir1, dir2);
}

} // verus!
