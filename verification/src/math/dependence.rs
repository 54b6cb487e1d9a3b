//! Affine dependencies between coordinates: how the equation of a plane
//! ties one axis to another, and how two such ties give the points of a
//! line.

use crate::scalar::{
    is_zero, minus, negate, negated, one, over, plus, times, vanishes, well_behaved, Scalar,
};
use crate::vector::Vector;
use vstd::prelude::*;

verus! {

/// A coordinate axis, or none.
#[derive(Clone, Copy, Debug, PartialEq, Eq, Hash, Structural)]
pub enum Dimension {
    X,
    Y,
    Z,
    /// No axis: where it stands for a source, the target is a constant.
    NoAxis,
}

/// The coefficients `(a, b, c, d)` of the plane `a*x + b*y + c*z + d = 0`.
pub type PlaneEquation<S> = (S, S, S, S);

impl Dimension {
    /// The one axis that is neither `self` nor `other`, where the two are
    /// different axes.
    pub open spec fn third(self, other: Dimension) -> Dimension {
        if self != Dimension::X && other != Dimension::X {
            Dimension::X
        } else if self != Dimension::Y && other != Dimension::Y {
            Dimension::Y
        } else {
            Dimension::Z
        }
    }

    /// Of the two axes other than `self`, the one that is expressed first:
    /// `Z` before `Y` before `X`.
    pub open spec fn upper(self) -> Dimension {
        if self == Dimension::Z {
            Dimension::Y
        } else {
            Dimension::Z
        }
    }

    /// Of the two axes other than `self`, the one that the other is
    /// expressed in.
    pub open spec fn lower(self) -> Dimension {
        if self == Dimension::X {
            Dimension::Y
        } else {
            Dimension::X
        }
    }

    /// The axis shared by two sources: the other one where one is no axis,
    /// their common value where they are equal, and nothing where they are
    /// two different axes.
    pub open spec fn link(self, other: Dimension) -> Option<Dimension> {
        if self == Dimension::NoAxis {
            Some(other)
        } else if other == Dimension::NoAxis {
            Some(self)
        } else if self == other {
            Some(self)
        } else {
            None
        }
    }

    /// Computes the axis that is neither of two.
    pub fn other_than(self, other: Dimension) -> (r: Dimension)
        ensures
            r == self.third(other),
    {
        if self != Dimension::X && other != Dimension::X {
            Dimension::X
        } else if self != Dimension::Y && other != Dimension::Y {
            Dimension::Y
        } else {
            Dimension::Z
        }
    }

    /// Computes the shared axis of two sources.
    pub fn common(self, other: Dimension) -> (r: Option<Dimension>)
        ensures
            r == self.link(other),
    {
        if self == Dimension::NoAxis {
            Some(other)
        } else if other == Dimension::NoAxis {
            Some(self)
        } else if self == other {
            Some(self)
        } else {
            None
        }
    }
}

/// The coefficient of an axis in a plane equation.
pub open spec fn coefficient<S>(eq: PlaneEquation<S>, axis: Dimension) -> S {
    match axis {
        Dimension::X => eq.0,
        Dimension::Y => eq.1,
        _ => eq.2,
    }
}

/// The equation has a coefficient that is not zero: it is the equation of
/// a plane.
pub open spec fn has_axis<S: Scalar>(eq: PlaneEquation<S>) -> bool {
    !(is_zero(eq.0) && is_zero(eq.1) && is_zero(eq.2))
}

/// No coefficient of the equation is zero.
pub open spec fn is_full<S: Scalar>(eq: PlaneEquation<S>) -> bool {
    !is_zero(eq.0) && !is_zero(eq.1) && !is_zero(eq.2)
}

/// Where both equations are full, eliminating `x` between them leaves a
/// coefficient of `z` that is not zero, so that the equation left over can
/// be solved for `z`.
pub open spec fn elimination_defined<S: Scalar>(
    eq1: PlaneEquation<S>,
    eq2: PlaneEquation<S>,
) -> bool {
    is_full(eq1) && is_full(eq2) ==> !is_zero(minus(eq1.2, times(eq2.2, over(eq1.0, eq2.0))))
}

/// The vector of the three coefficients.
pub open spec fn normal<S>(eq: PlaneEquation<S>) -> Vector<S> {
    Vector(eq.0, eq.1, eq.2)
}

/// Picks the coefficient of an axis from a plane equation.
fn coefficient_of<S: Scalar>(eq: PlaneEquation<S>, axis: Dimension) -> (r: S)
    ensures
        r == coefficient(eq, axis),
{
    match axis {
        Dimension::X => eq.0,
        Dimension::Y => eq.1,
        _ => eq.2,
    }
}

/// The relation `target = source_scalar * source + constant` between two
/// coordinates, or `target = constant` where the source is no axis.
#[derive(Clone, Copy, Debug, PartialEq)]
pub struct SingleScalarDependence<S> {
    pub target: Dimension,
    pub source: Dimension,
    pub source_scalar: S,
    pub constant: S,
}

impl<S: Scalar> SingleScalarDependence<S> {
    /// The target is an axis, and the source is not the target.
    pub open spec fn wf(self) -> bool {
        self.target != Dimension::NoAxis && self.target != self.source
    }

    /// `target = -constant / coefficient`: what `coefficient * target +
    /// constant = 0` says of the target.
    pub open spec fn fixed(target: Dimension, coefficient: S, constant: S) -> Self {
        SingleScalarDependence {
            target,
            source: Dimension::NoAxis,
            source_scalar: one::<S>(),
            constant: over(negated(constant), coefficient),
        }
    }

    /// What `target_coefficient * target + source_coefficient * source +
    /// constant = 0` says of the target.
    pub open spec fn affine(
        target: Dimension,
        source: Dimension,
        target_coefficient: S,
        source_coefficient: S,
        constant: S,
    ) -> Self {
        SingleScalarDependence {
            target,
            source,
            source_scalar: over(negated(source_coefficient), target_coefficient),
            constant: over(negated(constant), target_coefficient),
        }
    }

    /// The dependence that one plane equation gives by itself, by which of
    /// its coefficients are zero. With two zeros the third axis is fixed.
    /// With one zero, `Z` is expressed before `Y`, and `Y` before `X`. With
    /// none there is no dependence of two axes only.
    pub open spec fn derived(a: S, b: S, c: S, d: S) -> Result<Self, ()> {
        if is_zero(a) && is_zero(b) {
            Ok(Self::fixed(Dimension::Z, c, d))
        } else if is_zero(a) && is_zero(c) {
            Ok(Self::fixed(Dimension::Y, b, d))
        } else if is_zero(b) && is_zero(c) {
            Ok(Self::fixed(Dimension::X, a, d))
        } else if is_zero(a) {
            Ok(Self::affine(Dimension::Z, Dimension::Y, c, b, d))
        } else if is_zero(b) {
            Ok(Self::affine(Dimension::Z, Dimension::X, c, a, d))
        } else if is_zero(c) {
            Ok(Self::affine(Dimension::Y, Dimension::X, b, a, d))
        } else {
            Err(())
        }
    }

    /// The equation with the target of `self` replaced by what `self` says
    /// of it, solved for a third coordinate. Where `self` has a source, the
    /// axis that is neither its source nor its target is expressed in that
    /// source. Where `self` fixes its target, the other two axes remain,
    /// and the upper is expressed in the lower.
    pub open spec fn substituted(self, eq: PlaneEquation<S>) -> Self {
        let carried = coefficient(eq, self.target);
        let constant = plus(eq.3, times(self.constant, carried));
        if self.source == Dimension::NoAxis {
            let upper = self.target.upper();
            let lower = self.target.lower();
            Self::affine(upper, lower, coefficient(eq, upper), coefficient(eq, lower), constant)
        } else {
            let free = self.source.third(self.target);
            Self::affine(
                free,
                self.source,
                coefficient(eq, free),
                plus(coefficient(eq, self.source), times(self.source_scalar, carried)),
                constant,
            )
        }
    }

    /// A second dependence, from another plane equation: the one that the
    /// equation gives by itself, else the one that substituting `self` into
    /// it gives. Nothing where the result ties the same target to the same
    /// source as `self` does.
    pub open spec fn substitution(self, eq: PlaneEquation<S>) -> Option<Self> {
        let result = match Self::derived(eq.0, eq.1, eq.2, eq.3) {
            Ok(dependence) => dependence,
            Err(_) => self.substituted(eq),
        };
        if result.source == self.source && result.target == self.target {
            None
        } else {
            Some(result)
        }
    }

    /// What two full equations give once `x` is eliminated between them:
    /// the first minus the second scaled to the same coefficient of `x`,
    /// solved for `z`.
    pub open spec fn eliminated(eq1: PlaneEquation<S>, eq2: PlaneEquation<S>) -> Self {
        let multiplier = over(eq1.0, eq2.0);
        Self::affine(
            Dimension::Z,
            Dimension::Y,
            minus(eq1.2, times(eq2.2, multiplier)),
            minus(eq1.1, times(eq2.1, multiplier)),
            minus(eq1.3, times(eq2.3, multiplier)),
        )
    }

    /// The first dependence of a pair of plane equations: what the first
    /// gives by itself, else what the second gives, else what elimination
    /// between the two gives.
    pub open spec fn derived_from(eq1: PlaneEquation<S>, eq2: PlaneEquation<S>) -> Self {
        match Self::derived(eq1.0, eq1.1, eq1.2, eq1.3) {
            Ok(dependence) => dependence,
            Err(_) => match Self::derived(eq2.0, eq2.1, eq2.2, eq2.3) {
                Ok(dependence) => dependence,
                Err(_) => Self::eliminated(eq1, eq2),
            },
        }
    }

    /// The target's value where the source has the given value.
    pub open spec fn value_at(self, value: S) -> S {
        if self.source == Dimension::NoAxis {
            self.constant
        } else {
            plus(times(self.source_scalar, value), self.constant)
        }
    }

    /// The coordinate on `axis` of the point that two dependencies give for
    /// a parameter: the value of the dependence that targets the axis, and
    /// the parameter itself on the axis that neither targets.
    pub open spec fn coordinate(dep1: Self, dep2: Self, value: S, axis: Dimension) -> S {
        if axis == dep1.target {
            dep1.value_at(value)
        } else if axis == dep2.target {
            dep2.value_at(value)
        } else {
            value
        }
    }

    /// The point that two dependencies give for a parameter. The parameter
    /// is the value of their shared source; where neither has a source it
    /// is the value of the axis that neither targets. There is no point
    /// where the sources are two different axes, nor where the shared
    /// source and the two targets are not three different things.
    pub open spec fn assembled(dep1: Self, dep2: Self, value: S) -> Option<Vector<S>> {
        match dep1.source.link(dep2.source) {
            None => None,
            Some(source) => if source == dep1.target || source == dep2.target || dep1.target
                == dep2.target {
                None
            } else {
                Some(
                    Vector(
                        Self::coordinate(dep1, dep2, value, Dimension::X),
                        Self::coordinate(dep1, dep2, value, Dimension::Y),
                        Self::coordinate(dep1, dep2, value, Dimension::Z),
                    ),
                )
            },
        }
    }

    /// Builds a dependence from its four parts.
    pub fn new(target: Dimension, source: Dimension, source_scalar: S, constant: S) -> (r: Self)
        requires
            target != Dimension::NoAxis,
            target != source,
        ensures
            r == (SingleScalarDependence { target, source, source_scalar, constant }),
            r.wf(),
    {
        SingleScalarDependence { target, source, source_scalar, constant }
    }

    /// The dependence `target = -constant / coefficient`.
    fn scalar_only(target: Dimension, coefficient: S, constant: S) -> (r: Self)
        requires
            well_behaved::<S>(),
        ensures
            r == Self::fixed(target, coefficient, constant),
    {
        SingleScalarDependence {
            target,
            source: Dimension::NoAxis,
            source_scalar: S::from(1u8),
            constant: negate(constant) / coefficient,
        }
    }

    /// The dependence of `target` on `source` that a two-axis equation
    /// gives.
    fn from_coefficients(
        target: Dimension,
        source: Dimension,
        target_coefficient: S,
        source_coefficient: S,
        constant: S,
    ) -> (r: Self)
        requires
            well_behaved::<S>(),
        ensures
            r == Self::affine(target, source, target_coefficient, source_coefficient, constant),
    {
        let source_scalar: S = negate(source_coefficient) / target_coefficient;
        let constant: S = negate(constant) / target_coefficient;
        SingleScalarDependence { target, source, source_scalar, constant }
    }

    /// Computes the dependence that the plane equation
    /// `a*x + b*y + c*z + d = 0` gives by itself. Fails where no coefficient
    /// is zero. The three coefficients may not all be zero.
    pub fn compute(x_coefficient: S, y_coefficient: S, z_coefficient: S, constant: S) -> (r:
        Result<Self, ()>)
        requires
            well_behaved::<S>(),
            has_axis((x_coefficient, y_coefficient, z_coefficient, constant)),
        ensures
            r == Self::derived(x_coefficient, y_coefficient, z_coefficient, constant),
            r is Err <==> is_full((x_coefficient, y_coefficient, z_coefficient, constant)),
            r matches Ok(dependence) ==> dependence.wf() && !is_zero(
                coefficient(
                    (x_coefficient, y_coefficient, z_coefficient, constant),
                    dependence.target,
                ),
            ),
    {
        let x_zero: bool = vanishes(x_coefficient);
        let y_zero: bool = vanishes(y_coefficient);
        let z_zero: bool = vanishes(z_coefficient);
        if x_zero && y_zero {
            Ok(Self::scalar_only(Dimension::Z, z_coefficient, constant))
        } else if x_zero && z_zero {
            Ok(Self::scalar_only(Dimension::Y, y_coefficient, constant))
        } else if y_zero && z_zero {
            Ok(Self::scalar_only(Dimension::X, x_coefficient, constant))
        } else if x_zero {
            Ok(
                Self::from_coefficients(
                    Dimension::Z,
                    Dimension::Y,
                    z_coefficient,
                    y_coefficient,
                    constant,
                ),
            )
        } else if y_zero {
            Ok(
                Self::from_coefficients(
                    Dimension::Z,
                    Dimension::X,
                    z_coefficient,
                    x_coefficient,
                    constant,
                ),
            )
        } else if z_zero {
            Ok(
                Self::from_coefficients(
                    Dimension::Y,
                    Dimension::X,
                    y_coefficient,
                    x_coefficient,
                    constant,
                ),
            )
        } else {
            Err(())
        }
    }

    /// Computes another dependence from a second plane equation: directly
    /// where the equation gives one by itself, else by substituting `self`
    /// into it. Returns nothing where the result relates the same two
    /// coordinates as `self`, so that the equation adds nothing to `self`.
    /// The three coefficients may not all be zero.
    pub fn substitute_in(
        &self,
        x_coefficient: S,
        y_coefficient: S,
        z_coefficient: S,
        constant: S,
    ) -> (r: Option<Self>)
        requires
            well_behaved::<S>(),
            self.wf(),
            has_axis((x_coefficient, y_coefficient, z_coefficient, constant)),
        ensures
            r == self.substitution((x_coefficient, y_coefficient, z_coefficient, constant)),
            r matches Some(dependence) ==> dependence.wf(),
    {
        let result: Self = match Self::compute(
            x_coefficient,
            y_coefficient,
            z_coefficient,
            constant,
        ) {
            Ok(dependence) => dependence,
            Err(_) => self.substitute(x_coefficient, y_coefficient, z_coefficient, constant),
        };
        if result.source == self.source && result.target == self.target {
            return None;
        }
        Some(result)
    }

    /// The coefficient of the source and the constant of an equation once
    /// the target of `self` is replaced in it.
    fn calc_substituted_values(
        &self,
        source_coefficient: S,
        target_coefficient: S,
        constant: S,
    ) -> (r: (S, S))
        requires
            well_behaved::<S>(),
        ensures
            r.0 == plus(source_coefficient, times(self.source_scalar, target_coefficient)),
            r.1 == plus(constant, times(self.constant, target_coefficient)),
    {
        let substituted_source_coefficient: S = source_coefficient + self.source_scalar
            * target_coefficient;
        let substituted_scalar: S = constant + self.constant * target_coefficient;
        (substituted_source_coefficient, substituted_scalar)
    }

    /// Substitutes this dependence into the plane equation given and solves
    /// what is left for a third coordinate.
    fn substitute(&self, x_coefficient: S, y_coefficient: S, z_coefficient: S, constant: S) -> (r:
        Self)
        requires
            well_behaved::<S>(),
            self.wf(),
        ensures
            r == self.substituted((x_coefficient, y_coefficient, z_coefficient, constant)),
            r.wf(),
            r.target != self.target,
            self.source != Dimension::NoAxis ==> r.source == self.source,
    {
        let eq: PlaneEquation<S> = (x_coefficient, y_coefficient, z_coefficient, constant);
        let carried: S = coefficient_of(eq, self.target);
        match self.source {
            Dimension::NoAxis => {
                let (_, constant) = self.calc_substituted_values(S::from(1u8), carried, constant);
                match self.target {
                    Dimension::X => Self::from_coefficients(
                        Dimension::Z,
                        Dimension::Y,
                        z_coefficient,
                        y_coefficient,
                        constant,
                    ),
                    Dimension::Y => Self::from_coefficients(
                        Dimension::Z,
                        Dimension::X,
                        z_coefficient,
                        x_coefficient,
                        constant,
                    ),
                    _ => Self::from_coefficients(
                        Dimension::Y,
                        Dimension::X,
                        y_coefficient,
                        x_coefficient,
                        constant,
                    ),
                }
            },
            source => {
                let free: Dimension = source.other_than(self.target);
                let (source_coefficient, constant) = self.calc_substituted_values(
                    coefficient_of(eq, source),
                    carried,
                    constant,
                );
                Self::from_coefficients(
                    free,
                    source,
                    coefficient_of(eq, free),
                    source_coefficient,
                    constant,
                )
            },
        }
    }

    /// Computes the first dependence of two plane equations: from the first
    /// alone, else from the second alone, else by elimination between the
    /// two. Their coefficient vectors may not be linearly dependent, and
    /// each equation that is looked at must have a coefficient that is not
    /// zero.
    pub fn compute_from(eq1: PlaneEquation<S>, eq2: PlaneEquation<S>) -> (r: Self)
        requires
            well_behaved::<S>(),
            !normal(eq1).lindep(normal(eq2)),
            has_axis(eq1),
            is_full(eq1) ==> has_axis(eq2),
        ensures
            r == Self::derived_from(eq1, eq2),
            r.wf(),
    {
        match Self::compute(eq1.0, eq1.1, eq1.2, eq1.3) {
            Ok(dependence) => dependence,
            Err(_) => match Self::compute(eq2.0, eq2.1, eq2.2, eq2.3) {
                Ok(dependence) => dependence,
                Err(_) => Self::compute_from_full_equations(eq1, eq2),
            },
        }
    }

    /// Computes a dependence of `Z` on `Y` from two equations by
    /// eliminating `x` between them.
    fn compute_from_full_equations(eq1: PlaneEquation<S>, eq2: PlaneEquation<S>) -> (r: Self)
        requires
            well_behaved::<S>(),
        ensures
            r == Self::eliminated(eq1, eq2),
            r.wf(),
    {
        let (a, b, c, d1) = eq1;
        let (m, n, k, d2) = eq2;
        let multiplier: S = a / m;
        let (n, k, d2) = (n * multiplier, k * multiplier, d2 * multiplier);
        let (y_coefficient, z_coefficient, constant) = (b - n, c - k, d1 - d2);
        Self::from_coefficients(Dimension::Z, Dimension::Y, z_coefficient, y_coefficient, constant)
    }

    /// Evaluates the dependence: the value of the target where the source
    /// has the given value.
    pub fn put(&self, value: S) -> (r: S)
        requires
            well_behaved::<S>(),
        ensures
            r == self.value_at(value),
    {
        if self.source == Dimension::NoAxis {
            self.constant
        } else {
            self.source_scalar * value + self.constant
        }
    }

    /// Puts the values of two dependencies into a point, for one value of
    /// the parameter that they share. Returns nothing where their sources
    /// are two different axes, or where the shared source and the two
    /// targets do not name three different things.
    pub fn put_multiple(dep1: &Self, dep2: &Self, value: S) -> (r: Option<Vector<S>>)
        requires
            well_behaved::<S>(),
            dep1.wf(),
            dep2.wf(),
        ensures
            r == Self::assembled(*dep1, *dep2, value),
    {
        let source: Dimension = match dep1.source.common(dep2.source) {
            Some(source) => source,
            None => {
                return None;
            },
        };
        if source == dep1.target || source == dep2.target || dep1.target == dep2.target {
            return None;
        }
        let (value1, value2) = (dep1.put(value), dep2.put(value));
        let x: S = Self::pick(dep1, dep2, value1, value2, value, Dimension::X);
        let y: S = Self::pick(dep1, dep2, value1, value2, value, Dimension::Y);
        let z: S = Self::pick(dep1, dep2, value1, value2, value, Dimension::Z);
        Some(Vector(x, y, z))
    }

    /// The value that belongs on an axis: that of the dependence which
    /// targets it, else the parameter.
    fn pick(dep1: &Self, dep2: &Self, value1: S, value2: S, value: S, axis: Dimension) -> (r: S)
        ensures
            r == if axis == dep1.target {
                value1
            } else if axis == dep2.target {
                value2
            } else {
                value
            },
    {
        if axis == dep1.target {
            value1
        } else if axis == dep2.target {
            value2
        } else {
            value
        }
    }
}

} // verus!
