//! Linear equations in one unknown, and systems of two in two unknowns.

use crate::scalar::{
    equality_defined, is_zero, minus, negate, negated, over, plus, same, times, vanishes,
    well_behaved, Scalar,
};
use vstd::prelude::*;

verus! {

/// The roots of `a * x + b = 0`.
#[derive(Clone, Copy, Debug)]
pub enum EquationSolution<S> {
    /// No value is a root: `a` is zero and `b` is not.
    NoSolution,
    /// Every value is a root: `a` and `b` are both zero.
    Undefined,
    /// The one root.
    Real(S),
}

/// The coefficients `(a, b, c)` of `a * x + b * y + c = 0`.
pub type Equation<S> = (S, S, S);

impl<S: Scalar> EquationSolution<S> {
    /// The roots of `a * x + b = 0`: none where only `a` is zero, every value
    /// where both are, and `-b / a` elsewhere.
    pub open spec fn solve(a: S, b: S) -> Self {
        if is_zero(a) {
            if is_zero(b) {
                EquationSolution::Undefined
            } else {
                EquationSolution::NoSolution
            }
        } else {
            EquationSolution::Real(over(negated(b), a))
        }
    }

    /// The left side `a * x + b * y + c` of an equation at a pair.
    pub open spec fn left_side(eq: Equation<S>, x: S, y: S) -> S {
        plus(plus(times(eq.0, x), times(eq.1, y)), eq.2)
    }

    /// Whether two solutions are consistent with one common root.
    /// `NoSolution` agrees with nothing, itself included; `Undefined` agrees
    /// with every solution but `NoSolution`; two roots agree when they
    /// compare equal.
    pub open spec fn agrees(self, other: Self) -> bool {
        match (self, other) {
            (EquationSolution::NoSolution, _) => false,
            (_, EquationSolution::NoSolution) => false,
            (EquationSolution::Undefined, _) => true,
            (_, EquationSolution::Undefined) => true,
            (EquationSolution::Real(x), EquationSolution::Real(y)) => same(x, y),
        }
    }

    /// The equation in `y` alone that a system is reduced to, as its
    /// coefficient and its constant. Where the first equation has no `x`, it
    /// is that equation; else, where the second has none, the second; else
    /// the first minus the second scaled to the same coefficient of `x`.
    pub open spec fn reduced(eq1: Equation<S>, eq2: Equation<S>) -> (S, S) {
        if is_zero(eq1.0) {
            (eq1.1, eq1.2)
        } else if is_zero(eq2.0) {
            (eq2.1, eq2.2)
        } else {
            let multiplier = over(eq1.0, eq2.0);
            (minus(eq1.1, times(multiplier, eq2.1)), minus(eq1.2, times(multiplier, eq2.2)))
        }
    }

    /// The equation that `x` is read from once `y` is known: the second
    /// where the first has no `x`, else the first.
    pub open spec fn deferred(eq1: Equation<S>, eq2: Equation<S>) -> Equation<S> {
        if is_zero(eq1.0) {
            eq2
        } else {
            eq1
        }
    }

    /// The pair `(x, y)` where `x` is the one root of `eq` at the given `y`.
    pub open spec fn back_substituted(eq: Equation<S>, y: S) -> Option<(S, S)> {
        match Self::solve(eq.0, plus(times(eq.1, y), eq.2)) {
            EquationSolution::Real(x) => Some((x, y)),
            _ => None,
        }
    }

    /// The solution `(x, y)` of a system of two equations, where
    /// elimination finds exactly one.
    pub open spec fn solve_system(eq1: Equation<S>, eq2: Equation<S>) -> Option<(S, S)> {
        let (y_coefficient, constant) = Self::reduced(eq1, eq2);
        match Self::solve(y_coefficient, constant) {
            EquationSolution::Real(y) => Self::back_substituted(Self::deferred(eq1, eq2), y),
            _ => None,
        }
    }

    /// Solves the equation `a * x + b = 0`.
    pub fn compute(a: S, b: S) -> (r: Self)
        requires
            well_behaved::<S>(),
        ensures
            r == Self::solve(a, b),
    {
        if vanishes(a) {
            if vanishes(b) {
                EquationSolution::Undefined
            } else {
                EquationSolution::NoSolution
            }
        } else {
            EquationSolution::Real(negate(b) / a)
        }
    }

    /// Computes the `x` of a system from one of its equations, given its
    /// `y`.
    pub fn compute_other_solution(eq: Equation<S>, y: S) -> (r: Option<(S, S)>)
        requires
            well_behaved::<S>(),
        ensures
            r == Self::back_substituted(eq, y),
    {
        match Self::compute(eq.0, eq.1 * y + eq.2) {
            EquationSolution::Real(x) => Some((x, y)),
            _ => None,
        }
    }

    /// Solves the system `a * x + b * y + c = 0`, `m * x + n * y + k = 0`.
    /// Returns the pair `(x, y)`, or nothing where the reduced equation or
    /// the back substitution has no root or more than one.
    pub fn compute_multiple(eq1: Equation<S>, eq2: Equation<S>) -> (r: Option<(S, S)>)
        requires
            well_behaved::<S>(),
        ensures
            r == Self::solve_system(eq1, eq2),
    {
        let y_coefficient: S;
        let constant: S;
        let eq_compute_later: Equation<S>;
        if vanishes(eq1.0) {
            y_coefficient = eq1.1;
            constant = eq1.2;
            eq_compute_later = eq2;
        } else if vanishes(eq2.0) {
            y_coefficient = eq2.1;
            constant = eq2.2;
            eq_compute_later = eq1;
        } else {
            let multiplier: S = eq1.0 / eq2.0;
            y_coefficient = eq1.1 - multiplier * eq2.1;
            constant = eq1.2 - multiplier * eq2.2;
            eq_compute_later = eq1;
        }
        match Self::compute(y_coefficient, constant) {
            EquationSolution::Real(y) => Self::compute_other_solution(eq_compute_later, y),
            _ => None,
        }
    }

    /// Decides whether two solutions agree.
    pub fn agrees_with(&self, other: &Self) -> (r: bool)
        requires
            well_behaved::<S>(),
        ensures
            r == self.agrees(*other),
    {
        match (*self, *other) {
            (EquationSolution::NoSolution, _) => false,
            (_, EquationSolution::NoSolution) => false,
            (EquationSolution::Undefined, _) => true,
            (_, EquationSolution::Undefined) => true,
            (EquationSolution::Real(x), EquationSolution::Real(y)) => x == y,
        }
    }
}

/// `==` on solutions is agreement, not identity.
impl<S: Scalar> PartialEq for EquationSolution<S> {
    fn eq(&self, other: &Self) -> (r: bool) {
        match (*self, *other) {
            (EquationSolution::NoSolution, _) => false,
            (_, EquationSolution::NoSolution) => false,
            (EquationSolution::Undefined, _) => true,
            (_, EquationSolution::Undefined) => true,
            (EquationSolution::Real(x), EquationSolution::Real(y)) => x == y,
        }
    }
}

impl<S: Scalar> vstd::std_specs::cmp::PartialEqSpecImpl for EquationSolution<S> {
    open spec fn obeys_eq_spec() -> bool {
        equality_defined::<S>()
    }

    open spec fn eq_spec(&self, other: &Self) -> bool {
        self.agrees(*other)
    }
}

} // verus!
