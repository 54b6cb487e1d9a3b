//! Vectors of three scalars.

use crate::math::ratio::Ratio;
use crate::scalar::{
    below, exceeds, is_zero, minus, negated, over, plus, same, times, vanishes, well_behaved,
    zero, Metric, Scalar,
};
use std::ops::{Add, Div, Mul, Sub};
use vstd::prelude::*;

verus! {

/// A vector, or a point, of three-dimensional space.
#[derive(Clone, Copy, Debug, PartialEq)]
pub struct Vector<S>(pub S, pub S, pub S);

impl<S: Scalar> Vector<S> {
    /// The sum of two vectors, coordinate by coordinate.
    pub open spec fn sum(self, other: Self) -> Self {
        Vector(plus(self.0, other.0), plus(self.1, other.1), plus(self.2, other.2))
    }

    /// The difference of two vectors, coordinate by coordinate.
    pub open spec fn difference(self, other: Self) -> Self {
        Vector(minus(self.0, other.0), minus(self.1, other.1), minus(self.2, other.2))
    }

    /// The scalar product: the products of the coordinates, summed from
    /// the first to the third.
    pub open spec fn dot(self, other: Self) -> S {
        plus(plus(times(self.0, other.0), times(self.1, other.1)), times(self.2, other.2))
    }

    /// The vector with every coordinate multiplied by `k`.
    pub open spec fn scaled(self, k: S) -> Self {
        Vector(times(k, self.0), times(k, self.1), times(k, self.2))
    }

    /// The right-handed vector product.
    pub open spec fn cross(self, other: Self) -> Self {
        Vector(
            minus(times(self.1, other.2), times(self.2, other.1)),
            minus(times(self.2, other.0), times(self.0, other.2)),
            minus(times(self.0, other.1), times(self.1, other.0)),
        )
    }

    /// The vector with every coordinate negated.
    pub open spec fn opposite(self) -> Self {
        Vector(negated(self.0), negated(self.1), negated(self.2))
    }

    /// The two vectors compare equal in every coordinate.
    pub open spec fn equals(self, other: Self) -> bool {
        same(self.0, other.0) && same(self.1, other.1) && same(self.2, other.2)
    }

    /// Every coordinate of the vector is zero.
    pub open spec fn null(self) -> bool {
        is_zero(self.0) && is_zero(self.1) && is_zero(self.2)
    }

    /// Linear dependence: the three ratios of corresponding coordinates
    /// agree pairwise. A coordinate that is zero in both vectors agrees with
    /// any ratio; one that is zero in one vector only agrees with none.
    pub open spec fn lindep(self, other: Self) -> bool {
        let r1 = Ratio::of(self.0, other.0);
        let r2 = Ratio::of(self.1, other.1);
        let r3 = Ratio::of(self.2, other.2);
        r1.agrees(r2) && r1.agrees(r3) && r2.agrees(r3)
    }

    /// The factor that takes `other` to `self`: the quotient of the first
    /// pair of coordinates that has one, where the vectors are dependent.
    /// There is none where they are independent, nor where both are null.
    pub open spec fn ratio(self, other: Self) -> Result<S, ()> {
        let r1 = Ratio::of(self.0, other.0);
        let r2 = Ratio::of(self.1, other.1);
        let r3 = Ratio::of(self.2, other.2);
        if !self.lindep(other) {
            Err(())
        } else if let Ratio::Real(r) = r1 {
            Ok(r)
        } else if let Ratio::Real(r) = r2 {
            Ok(r)
        } else if let Ratio::Real(r) = r3 {
            Ok(r)
        } else {
            Err(())
        }
    }

    /// The length: the square root of the scalar product with itself.
    pub open spec fn norm<R: Fn(S) -> S, A: Fn(S) -> S>(self, m: Metric<S, R, A>) -> S {
        m.root(self.dot(self))
    }

    /// The angle between two vectors, in radians: the arc cosine of their
    /// scalar product over the product of their lengths.
    pub open spec fn angle<R: Fn(S) -> S, A: Fn(S) -> S>(
        self,
        other: Self,
        m: Metric<S, R, A>,
    ) -> S {
        m.arc_cosine(over(self.dot(other), times(self.norm(m), other.norm(m))))
    }

    /// The mathematical length of a vector.
    pub fn length<R: Fn(S) -> S, A: Fn(S) -> S>(&self, m: &Metric<S, R, A>) -> (r: S)
        requires
            well_behaved::<S>(),
            m.wf(),
        ensures
            r == self.norm(*m),
            !below(r, zero::<S>()),
    {
        m.square_root(*self * *self)
    }

    /// Checks whether two vectors are linearly dependent.
    pub fn is_lindep(&self, other: &Vector<S>) -> (r: bool)
        requires
            well_behaved::<S>(),
        ensures
            r == self.lindep(*other),
    {
        let r1: Ratio<S> = Ratio::compute(self.0, other.0);
        let r2: Ratio<S> = Ratio::compute(self.1, other.1);
        let r3: Ratio<S> = Ratio::compute(self.2, other.2);
        r1.agrees_with(&r2) && r1.agrees_with(&r3) && r2.agrees_with(&r3)
    }

    /// Computes the angle between two vectors, in radians.
    pub fn angle_between<R: Fn(S) -> S, A: Fn(S) -> S>(
        u: &Vector<S>,
        v: &Vector<S>,
        m: &Metric<S, R, A>,
    ) -> (r: S)
        requires
            well_behaved::<S>(),
            m.wf(),
        ensures
            r == u.angle(*v, *m),
            !below(r, zero::<S>()),
            !exceeds(r, m.pi),
    {
        m.arccos((*u * *v) / (u.length(m) * v.length(m)))
    }

    /// Computes a vector that is perpendicular to two given vectors.
    pub fn vectoric_product(u: &Vector<S>, v: &Vector<S>) -> (r: Vector<S>)
        requires
            well_behaved::<S>(),
        ensures
            r == u.cross(*v),
    {
        Vector(u.1 * v.2 - u.2 * v.1, u.2 * v.0 - u.0 * v.2, u.0 * v.1 - u.1 * v.0)
    }

    /// Compares two vectors coordinate by coordinate.
    pub fn coincides(&self, other: &Vector<S>) -> (r: bool)
        requires
            well_behaved::<S>(),
        ensures
            r == self.equals(*other),
    {
        self.0 == other.0 && self.1 == other.1 && self.2 == other.2
    }

    /// Checks whether every coordinate of the vector is zero.
    pub fn is_null(&self) -> (r: bool)
        requires
            well_behaved::<S>(),
        ensures
            r == self.null(),
    {
        vanishes(self.0) && vanishes(self.1) && vanishes(self.2)
    }

    /// Multiplies a vector by a scalar.
    pub fn scale(&self, k: S) -> (r: Vector<S>)
        requires
            well_behaved::<S>(),
        ensures
            r == self.scaled(k),
    {
        Vector(k * self.0, k * self.1, k * self.2)
    }
}

/// `u + v` is the sum of the two vectors.
impl<S: Scalar> Add for Vector<S> {
    type Output = Vector<S>;

    fn add(self, rhs: Self) -> (r: Self) {
        Vector(self.0 + rhs.0, self.1 + rhs.1, self.2 + rhs.2)
    }
}

impl<S: Scalar> vstd::std_specs::ops::AddSpecImpl for Vector<S> {
    open spec fn obeys_add_spec() -> bool {
        true
    }

    open spec fn add_req(self, rhs: Self) -> bool {
        well_behaved::<S>()
    }

    open spec fn add_spec(self, rhs: Self) -> Self {
        self.sum(rhs)
    }
}

/// `u - v` is the difference of the two vectors.
impl<S: Scalar> Sub for Vector<S> {
    type Output = Vector<S>;

    fn sub(self, rhs: Self) -> (r: Self) {
        Vector(self.0 - rhs.0, self.1 - rhs.1, self.2 - rhs.2)
    }
}

impl<S: Scalar> vstd::std_specs::ops::SubSpecImpl for Vector<S> {
    open spec fn obeys_sub_spec() -> bool {
        true
    }

    open spec fn sub_req(self, rhs: Self) -> bool {
        well_behaved::<S>()
    }

    open spec fn sub_spec(self, rhs: Self) -> Self {
        self.difference(rhs)
    }
}

/// `u * v` is the scalar product of the two vectors.
impl<S: Scalar> Mul for Vector<S> {
    type Output = S;

    fn mul(self, rhs: Self) -> (r: S) {
        self.0 * rhs.0 + self.1 * rhs.1 + self.2 * rhs.2
    }
}

impl<S: Scalar> vstd::std_specs::ops::MulSpecImpl for Vector<S> {
    open spec fn obeys_mul_spec() -> bool {
        true
    }

    open spec fn mul_req(self, rhs: Self) -> bool {
        well_behaved::<S>()
    }

    open spec fn mul_spec(self, rhs: Self) -> S {
        self.dot(rhs)
    }
}

/// `u / v` is the factor that takes `v` to `u`, where the two vectors are
/// linearly dependent and not both null, and an error elsewhere.
impl<S: Scalar> Div for Vector<S> {
    type Output = Result<S, ()>;

    fn div(self, rhs: Self) -> (r: Result<S, ()>) {
        let r1: Ratio<S> = Ratio::compute(self.0, rhs.0);
        let r2: Ratio<S> = Ratio::compute(self.1, rhs.1);
        let r3: Ratio<S> = Ratio::compute(self.2, rhs.2);
        if !(r1.agrees_with(&r2) && r1.agrees_with(&r3) && r2.agrees_with(&r3)) {
            return Err(());
        }
        match (r1, r2, r3) {
            (Ratio::Real(r), _, _) => Ok(r),
            (_, Ratio::Real(r), _) => Ok(r),
            (_, _, Ratio::Real(r)) => Ok(r),
            _ => Err(()),
        }
    }
}

impl<S: Scalar> vstd::std_specs::ops::DivSpecImpl for Vector<S> {
    open spec fn obeys_div_spec() -> bool {
        true
    }

    open spec fn div_req(self, rhs: Self) -> bool {
        well_behaved::<S>()
    }

    open spec fn div_spec(self, rhs: Self) -> Result<S, ()> {
        self.ratio(rhs)
    }
}

} // verus!
