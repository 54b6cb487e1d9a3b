//! The quotient of two coordinates, as the test for linear dependence
//! reads it.

use crate::scalar::{equality_defined, is_zero, over, same, vanishes, well_behaved, Scalar};
use vstd::prelude::*;

verus! {

/// How two scalars stand to each other as dividend and divisor.
#[derive(Clone, Copy, Debug)]
pub enum Ratio<S> {
    /// Exactly one of the two is zero: no quotient relates them.
    Invalid,
    /// Both are zero: every quotient relates them.
    Zeros,
    /// Neither is zero: their quotient.
    Real(S),
}

impl<S: Scalar> Ratio<S> {
    /// The ratio of `x` to `y`.
    pub open spec fn of(x: S, y: S) -> Self {
        if is_zero(x) && is_zero(y) {
            Ratio::Zeros
        } else if is_zero(x) || is_zero(y) {
            Ratio::Invalid
        } else {
            Ratio::Real(over(x, y))
        }
    }

    /// Whether two ratios can belong to one pair of dependent vectors.
    /// `Invalid` agrees with nothing, itself included; `Zeros` agrees with
    /// every ratio but `Invalid`; two quotients agree when they compare
    /// equal. The relation is symmetric, and neither reflexive nor
    /// transitive.
    pub open spec fn agrees(self, other: Self) -> bool {
        match (self, other) {
            (Ratio::Invalid, _) => false,
            (_, Ratio::Invalid) => false,
            (Ratio::Zeros, _) => true,
            (_, Ratio::Zeros) => true,
            (Ratio::Real(x), Ratio::Real(y)) => same(x, y),
        }
    }

    /// Computes the ratio between two scalars.
    pub fn compute(x: S, y: S) -> (r: Self)
        requires
            well_behaved::<S>(),
        ensures
            r == Self::of(x, y),
    {
        let x_zero: bool = vanishes(x);
        let y_zero: bool = vanishes(y);
        if x_zero && y_zero {
            Ratio::Zeros
        } else if x_zero || y_zero {
            Ratio::Invalid
        } else {
            Ratio::Real(x / y)
        }
    }

    /// Whether the ratio is anything but `Invalid`.
    pub fn is_valid(self) -> (r: bool)
        ensures
            r == !(self is Invalid),
    {
        match self {
            Ratio::Invalid => false,
            _ => true,
        }
    }

    /// Decides whether two ratios agree.
    pub fn agrees_with(&self, other: &Self) -> (r: bool)
        requires
            well_behaved::<S>(),
        ensures
            r == self.agrees(*other),
    {
        match (*self, *other) {
            (Ratio::Invalid, _) => false,
            (_, Ratio::Invalid) => false,
            (Ratio::Zeros, _) => true,
            (_, Ratio::Zeros) => true,
            (Ratio::Real(x), Ratio::Real(y)) => x == y,
        }
    }
}

/// `==` on ratios is agreement, not identity.
impl<S: Scalar> PartialEq for Ratio<S> {
    fn eq(&self, other: &Self) -> (r: bool) {
        match (*self, *other) {
            (Ratio::Invalid, _) => false,
            (_, Ratio::Invalid) => false,
            (Ratio::Zeros, _) => true,
            (_, Ratio::Zeros) => true,
            (Ratio::Real(x), Ratio::Real(y)) => x == y,
        }
    }
}

impl<S: Scalar> vstd::std_specs::cmp::PartialEqSpecImpl for Ratio<S> {
    open spec fn obeys_eq_spec() -> bool {
        equality_defined::<S>()
    }

    open spec fn eq_spec(&self, other: &Self) -> bool {
        self.agrees(*other)
    }
}

/// Agreement of ratios is symmetric.
pub proof fn agreement_symmetric<S: Scalar>(p: Ratio<S>, q: Ratio<S>)
    requires
        forall|a: S, b: S| same(a, b) == same(b, a),
    ensures
        p.agrees(q) == q.agrees(p),
{
}

} // verus!
