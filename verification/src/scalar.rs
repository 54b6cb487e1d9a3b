//! The scalar type that the geometry is computed over.

use std::ops::{Add, Div, Mul, Neg, Sub};
use vstd::prelude::*;
use vstd::std_specs::cmp::{PartialEqSpec, PartialOrdIs, PartialOrdSpec};
use vstd::std_specs::convert::FromSpec;
use vstd::std_specs::ops::{AddSpec, DivSpec, MulSpec, NegSpec, SubSpec};

verus! {

/// What the library asks of a number type. The trait has no items of its
/// own: every type with these operators is a scalar.
pub trait Scalar: Copy + PartialEq + PartialOrd + Add<Output = Self> + Sub<Output = Self> + Mul<
    Output = Self,
> + Div<Output = Self> + Neg<Output = Self> + From<u8> {

}

impl<T> Scalar for T where
    T: Copy + PartialEq + PartialOrd + Add<Output = T> + Sub<Output = T> + Mul<Output = T> + Div<
        Output = T,
    > + Neg<Output = T> + From<u8>,
 {
}

/// Every operator may be applied to every pair of scalars, division by zero
/// included, and its result is a function of its arguments.
pub open spec fn arithmetic_defined<S: Scalar>() -> bool {
    &&& S::obeys_add_spec()
    &&& S::obeys_sub_spec()
    &&& S::obeys_mul_spec()
    &&& S::obeys_div_spec()
    &&& S::obeys_neg_spec()
    &&& forall|a: S, b: S| #[trigger] a.add_req(b)
    &&& forall|a: S, b: S| #[trigger] a.sub_req(b)
    &&& forall|a: S, b: S| #[trigger] a.mul_req(b)
    &&& forall|a: S, b: S| #[trigger] a.div_req(b)
    &&& forall|a: S| #[trigger] a.neg_req()
}

/// Equality of scalars is a function of its arguments.
pub open spec fn equality_defined<S: Scalar>() -> bool {
    S::obeys_eq_spec()
}

/// Equality and order of scalars are functions of their arguments.
pub open spec fn comparison_defined<S: Scalar>() -> bool {
    &&& equality_defined::<S>()
    &&& S::obeys_partial_cmp_spec()
}

/// The scalar type behaves as the contracts of this library assume.
pub open spec fn well_behaved<S: Scalar>() -> bool {
    &&& arithmetic_defined::<S>()
    &&& comparison_defined::<S>()
    &&& S::obeys_from_spec()
}

/// The scalar 0.
pub open spec fn zero<S: Scalar>() -> S {
    S::from_spec(0u8)
}

/// The scalar 1.
pub open spec fn one<S: Scalar>() -> S {
    S::from_spec(1u8)
}

/// The scalar 2.
pub open spec fn two<S: Scalar>() -> S {
    S::from_spec(2u8)
}

/// `a + b`, as the scalar type computes it.
pub open spec fn plus<S: Scalar>(a: S, b: S) -> S {
    a.add_spec(b)
}

/// `a - b`, as the scalar type computes it.
pub open spec fn minus<S: Scalar>(a: S, b: S) -> S {
    a.sub_spec(b)
}

/// `a * b`, as the scalar type computes it.
pub open spec fn times<S: Scalar>(a: S, b: S) -> S {
    a.mul_spec(b)
}

/// `a / b`, as the scalar type computes it.
pub open spec fn over<S: Scalar>(a: S, b: S) -> S {
    a.div_spec(b)
}

/// `-a`, as the scalar type computes it.
pub open spec fn negated<S: Scalar>(a: S) -> S {
    a.neg_spec()
}

/// The comparison primitive: every test for equality or for zero in the
/// library is this one.
pub open spec fn same<S: Scalar>(a: S, b: S) -> bool {
    a.eq_spec(&b)
}

/// `a` compares equal to 0.
pub open spec fn is_zero<S: Scalar>(a: S) -> bool {
    same(a, zero::<S>())
}

/// `a > b`, as the scalar type orders them.
pub open spec fn exceeds<S: Scalar>(a: S, b: S) -> bool {
    a.is_gt(&b)
}

/// `a < b`, as the scalar type orders them.
pub open spec fn below<S: Scalar>(a: S, b: S) -> bool {
    a.is_lt(&b)
}

/// `|a|`: `a` with its sign dropped where it lies below 0.
pub open spec fn magnitude<S: Scalar>(a: S) -> S {
    if below(a, zero::<S>()) {
        negated(a)
    } else {
        a
    }
}

/// The scalar type computes exactly: `value` maps it one-to-one into the
/// real numbers, and every operator, comparison and constant of the type is
/// the real one. Division is tied down by divisors other than zero only.
pub open spec fn exact<S: Scalar>(value: spec_fn(S) -> real) -> bool {
    &&& forall|a: S, b: S| #![trigger value(a), value(b)] value(a) == value(b) ==> a == b
    &&& forall|a: S, b: S| #[trigger] same(a, b) <==> value(a) == value(b)
    &&& forall|a: S, b: S| #[trigger] value(plus(a, b)) == value(a) + value(b)
    &&& forall|a: S, b: S| #[trigger] value(minus(a, b)) == value(a) - value(b)
    &&& forall|a: S, b: S| #[trigger] value(times(a, b)) == value(a) * value(b)
    &&& forall|a: S, b: S|
        value(b) != 0real ==> #[trigger] value(over(a, b)) * value(b) == value(a)
    &&& forall|a: S| #[trigger] value(negated(a)) == -value(a)
    &&& forall|a: S, b: S| #[trigger] exceeds(a, b) <==> value(a) > value(b)
    &&& forall|a: S, b: S| #[trigger] below(a, b) <==> value(a) < value(b)
    &&& value(zero::<S>()) == 0real
    &&& value(one::<S>()) == 1real
    &&& value(two::<S>()) == 2real
}

/// Compares two scalars.
pub fn equal<S: Scalar>(a: S, b: S) -> (r: bool)
    requires
        well_behaved::<S>(),
    ensures
        r == same(a, b),
{
    a == b
}

/// Tests a scalar for zero.
pub fn vanishes<S: Scalar>(a: S) -> (r: bool)
    requires
        well_behaved::<S>(),
    ensures
        r == is_zero(a),
{
    let nought: S = S::from(0u8);
    a == nought
}

/// The negative of a scalar.
pub fn negate<S: Scalar>(a: S) -> (r: S)
    requires
        well_behaved::<S>(),
    ensures
        r == negated(a),
{
    a.neg()
}

/// The absolute value of a scalar.
pub fn absolute<S: Scalar>(a: S) -> (r: S)
    requires
        well_behaved::<S>(),
    ensures
        r == magnitude(a),
{
    let nought: S = S::from(0u8);
    if a < nought {
        a.neg()
    } else {
        a
    }
}

/// Square root, arc cosine and the constant pi for a scalar type.
pub struct Metric<S, R, A> {
    /// The square root.
    pub sqrt: R,
    /// The arc cosine, in radians.
    pub acos: A,
    /// The constant pi.
    pub pi: S,
}

impl<S: Scalar, R: Fn(S) -> S, A: Fn(S) -> S> Metric<S, R, A> {
    /// Both functions accept every scalar and return one result for each.
    /// No square root lies below zero, and no arc cosine lies below zero
    /// or above pi.
    pub open spec fn wf(&self) -> bool {
        &&& forall|x: S| call_requires(self.sqrt, (x,))
        &&& forall|x: S| call_requires(self.acos, (x,))
        &&& forall|x: S, r1: S, r2: S|
            call_ensures(self.sqrt, (x,), r1) && call_ensures(self.sqrt, (x,), r2) ==> r1 == r2
        &&& forall|x: S, r1: S, r2: S|
            call_ensures(self.acos, (x,), r1) && call_ensures(self.acos, (x,), r2) ==> r1 == r2
        &&& forall|x: S, r: S| call_ensures(self.sqrt, (x,), r) ==> !below(r, zero::<S>())
        &&& forall|x: S, r: S|
            call_ensures(self.acos, (x,), r) ==> !below(r, zero::<S>()) && !exceeds(r, self.pi)
    }

    /// What `sqrt` returns on `x`.
    pub open spec fn root(&self, x: S) -> S {
        choose|r: S| call_ensures(self.sqrt, (x,), r)
    }

    /// What `acos` returns on `x`.
    pub open spec fn arc_cosine(&self, x: S) -> S {
        choose|r: S| call_ensures(self.acos, (x,), r)
    }

    /// A right angle: `pi / 2`.
    pub open spec fn right_angle(&self) -> S {
        over(self.pi, two::<S>())
    }

    /// An angle of `[0, pi]` folded into `[0, pi / 2]`: the angle between
    /// two undirected lines.
    pub open spec fn folded(&self, angle: S) -> S {
        if exceeds(angle, self.right_angle()) {
            minus(self.pi, angle)
        } else {
            angle
        }
    }

    /// Bundles the two functions and the constant.
    pub fn new(sqrt: R, acos: A, pi: S) -> (m: Self)
        ensures
            m.sqrt == sqrt,
            m.acos == acos,
            m.pi == pi,
    {
        Metric { sqrt, acos, pi }
    }

    /// Applies the square root.
    pub fn square_root(&self, x: S) -> (r: S)
        requires
            self.wf(),
        ensures
            r == self.root(x),
            !below(r, zero::<S>()),
    {
        (self.sqrt)(x)
    }

    /// Applies the arc cosine.
    pub fn arccos(&self, x: S) -> (r: S)
        requires
            self.wf(),
        ensures
            r == self.arc_cosine(x),
            !below(r, zero::<S>()),
            !exceeds(r, self.pi),
    {
        (self.acos)(x)
    }

    /// Folds an angle into the first quadrant: above a right angle it
    /// becomes `pi - angle`, else it stays.
    pub fn fold(&self, angle: S) -> (r: S)
        requires
            well_behaved::<S>(),
        ensures
            r == self.folded(angle),
    {
        let half: S = self.pi / S::from(2u8);
        if angle > half {
            self.pi - angle
        } else {
            angle
        }
    }
}

} // verus!
