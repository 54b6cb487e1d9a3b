//! Identities of real arithmetic that the laws rest on.

use vstd::prelude::*;

verus! {

/// A product with a factor zero is zero.
pub(crate) proof fn zero_product(a: real, x: real)
    by (nonlinear_arith)
    requires
        a == 0real,
    ensures
        a * x == 0real,
        x * a == 0real,
{
}

/// The triple product with a repeated factor vanishes.
pub(crate) proof fn repeated_factor_vanishes(a0: real, a1: real, a2: real, b0: real, b1: real, b2: real)
    by (nonlinear_arith)
    ensures
        (a1 * b2 - a2 * b1) * a0 + (a2 * b0 - a0 * b2) * a1 + (a0 * b1 - a1 * b0) * a2 == 0real,
        (a1 * b2 - a2 * b1) * b0 + (a2 * b0 - a0 * b2) * b1 + (a0 * b1 - a1 * b0) * b2 == 0real,
{
}

/// An equation in two coordinates, solved for one of them: what is left of
/// `t = scalar * s + constant`, times the coefficient of `t`, is the left
/// side of the equation.
pub(crate) proof fn isolated(t: real, s: real, scalar: real, constant: real, ct: real, cs: real, d: real)
    by (nonlinear_arith)
    requires
        scalar * ct == -cs,
        constant * ct == -d,
    ensures
        (t - (scalar * s + constant)) * ct == ct * t + cs * s + d,
{
}

/// An equation in one coordinate, solved for it.
pub(crate) proof fn fixed_isolated(t: real, constant: real, ct: real, d: real)
    by (nonlinear_arith)
    requires
        constant * ct == -d,
    ensures
        (t - constant) * ct == ct * t + d,
{
}

/// An equation with `m * s + n` put in for one coordinate, its terms
/// gathered by the coordinate `s`.
pub(crate) proof fn gathered(cs: real, m: real, ct: real, s: real, d: real, n: real)
    by (nonlinear_arith)
    ensures
        (cs + m * ct) * s + (d + n * ct) == cs * s + ct * (m * s + n) + d,
{
}

/// A factor of a product that is not zero can be cancelled from zero.
pub(crate) proof fn cancelled(mu: real, m: real, a: real, e: real)
    by (nonlinear_arith)
    requires
        mu * m == a,
        a != 0real,
        mu * e == 0real,
    ensures
        e == 0real,
{
}

/// A coefficient less a scaled one, times a coordinate.
pub(crate) proof fn scaled_difference(c: real, k: real, mu: real, z: real)
    by (nonlinear_arith)
    ensures
        (c - k * mu) * z == c * z - mu * (k * z),
{
}

/// A scaled sum of four terms.
pub(crate) proof fn scaled_sum(mu: real, a: real, b: real, c: real, d: real)
    by (nonlinear_arith)
    ensures
        mu * (a + b + c + d) == mu * a + mu * b + mu * c + mu * d,
{
}

/// Multiplication of three factors may be grouped either way.
pub(crate) proof fn regrouped(mu: real, m: real, x: real)
    by (nonlinear_arith)
    ensures
        mu * (m * x) == (mu * m) * x,
{
}

/// A difference of coordinates times a coefficient.
pub(crate) proof fn difference_times(q: real, p: real, n: real)
    by (nonlinear_arith)
    ensures
        (q - p) * n == n * q - n * p,
{
}

/// A coefficient times a coordinate of the line through two points.
pub(crate) proof fn along_chord(n: real, p: real, q: real, t: real)
    by (nonlinear_arith)
    ensures
        n * (p + t * (q - p)) == n * p + t * (n * q - n * p),
{
}

/// A scaled sum of three terms.
pub(crate) proof fn scaled_sum_of_three(t: real, a: real, b: real, c: real)
    by (nonlinear_arith)
    ensures
        t * a + t * b + t * c == t * (a + b + c),
{
}

/// Multiplication does not depend on the order of its factors.
pub(crate) proof fn commutes(a: real, b: real)
    by (nonlinear_arith)
    ensures
        a * b == b * a,
{
}

/// Equal factors give equal products.
pub(crate) proof fn same_product(x: real, y: real, s: real)
    by (nonlinear_arith)
    requires
        x == y,
    ensures
        x * s == y * s,
        s * x == s * y,
{
}

/// A factor that is not zero can be cancelled from an equation.
pub(crate) proof fn cancel_factor(a: real, x: real, y: real)
    by (nonlinear_arith)
    requires
        a != 0real,
        a * x == a * y,
    ensures
        x == y,
{
}

/// A coefficient less a scaled one, times a coordinate, with the scale
/// written first.
pub(crate) proof fn scaled_difference_left(b: real, mu: real, n: real, y: real)
    by (nonlinear_arith)
    ensures
        (b - mu * n) * y == b * y - mu * (n * y),
{
}

/// A coefficient times a coordinate of a point moved along a direction.
pub(crate) proof fn along_direction(d: real, w: real, t: real, e: real)
    by (nonlinear_arith)
    ensures
        d * (w + t * e) == d * w + t * (d * e),
{
}

/// A minor of two vectors in terms of what their coordinates lack of a
/// common factor `q`.
pub(crate) proof fn minor_by_factor(ui: real, vi: real, uj: real, vj: real, q: real)
    by (nonlinear_arith)
    ensures
        ui * vj - uj * vi == (ui - q * vi) * vj - (uj - q * vj) * vi,
{
}

/// Two quotients are equal where the minor of their pairs vanishes.
pub(crate) proof fn equal_quotients(ui: real, vi: real, uj: real, vj: real, qi: real, qj: real)
    by (nonlinear_arith)
    requires
        qi * vi == ui,
        qj * vj == uj,
        ui * vj == uj * vi,
        vi != 0real,
        vj != 0real,
    ensures
        qi == qj,
{
}

/// A product of two factors that are not zero is not zero.
pub(crate) proof fn nonzero_product(a: real, b: real)
    by (nonlinear_arith)
    requires
        a != 0real,
        b != 0real,
    ensures
        a * b != 0real,
{
}

/// Half of a quantity, twice, is the quantity.
pub(crate) proof fn half_twice(half: real, whole: real)
    by (nonlinear_arith)
    requires
        half * 2real == whole,
    ensures
        half + half == whole,
{
}

} // verus!
