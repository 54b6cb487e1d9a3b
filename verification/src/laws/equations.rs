//! Laws of the equation solver: what it returns are the roots.

use crate::laws::reals::{
    cancel_factor, cancelled, commutes, regrouped, same_product, scaled_difference_left,
    scaled_sum_of_three, zero_product,
};
use crate::laws::dependencies::zero_is_zero;
use crate::math::equation::{Equation, EquationSolution};
use crate::scalar::{exact, is_zero, negated, over, plus, times, zero, Scalar};
use vstd::prelude::*;

verus! {

/// The solutions of `a * x + b = 0` are its roots: the one returned is a
/// root and the only one, none has a root where none is returned, and
/// every value is a root where the solution is undefined.
pub proof fn solution_is_root<S: Scalar>(value: spec_fn(S) -> real, a: S, b: S)
    requires
        exact(value),
    ensures
        match EquationSolution::solve(a, b) {
            EquationSolution::Real(x) => {
                &&& plus(times(a, x), b) == zero::<S>()
                &&& forall|y: S| #[trigger] plus(times(a, y), b) == zero::<S>() ==> y == x
            },
            EquationSolution::NoSolution => forall|y: S| #[trigger]
                plus(times(a, y), b) != zero::<S>(),
            EquationSolution::Undefined => forall|y: S| #[trigger]
                plus(times(a, y), b) == zero::<S>(),
        },
{
    zero_is_zero(value, a);
    zero_is_zero(value, b);
    match EquationSolution::solve(a, b) {
        EquationSolution::Real(x) => {
            commutes(value(x), value(a));
            assert(value(plus(times(a, x), b)) == value(a) * value(x) + value(b));
            assert forall|y: S| #[trigger] plus(times(a, y), b) == zero::<S>() implies y == x by {
                cancel_factor(value(a), value(y), value(x));
            }
        },
        EquationSolution::NoSolution => {
            assert forall|y: S| #[trigger] plus(times(a, y), b) != zero::<S>() by {
                zero_product(value(a), value(y));
            }
        },
        EquationSolution::Undefined => {
            assert forall|y: S| #[trigger] plus(times(a, y), b) == zero::<S>() by {
                zero_product(value(a), value(y));
                assert(value(plus(times(a, y), b)) == value(a) * value(y) + value(b));
            }
        },
    }
}

/// The left side of an equation at a pair, in the real numbers.
pub open spec fn real_left_side<S: Scalar>(
    value: spec_fn(S) -> real,
    eq: Equation<S>,
    x: S,
    y: S,
) -> real {
    value(eq.0) * value(x) + value(eq.1) * value(y) + value(eq.2)
}

/// Back substitution gives an `x` that satisfies the equation at the given
/// `y`.
proof fn back_substitution_satisfies<S: Scalar>(
    value: spec_fn(S) -> real,
    eq: Equation<S>,
    y: S,
)
    requires
        exact(value),
        EquationSolution::back_substituted(eq, y) is Some,
    ensures
        ({
            let (x, y1) = EquationSolution::back_substituted(eq, y)->Some_0;
            &&& y1 == y
            &&& real_left_side(value, eq, x, y) == 0real
        }),
{
    let rest = plus(times(eq.1, y), eq.2);
    solution_is_root(value, eq.0, rest);
}

/// The pair that the solver returns for a system satisfies both of its
/// equations.
pub proof fn solution_satisfies_system<S: Scalar>(
    value: spec_fn(S) -> real,
    eq1: Equation<S>,
    eq2: Equation<S>,
)
    requires
        exact(value),
        EquationSolution::solve_system(eq1, eq2) is Some,
    ensures
        ({
            let (x, y) = EquationSolution::solve_system(eq1, eq2)->Some_0;
            &&& EquationSolution::left_side(eq1, x, y) == zero::<S>()
            &&& EquationSolution::left_side(eq2, x, y) == zero::<S>()
        }),
{
    let (x, y) = EquationSolution::solve_system(eq1, eq2)->Some_0;
    let (y_coefficient, constant) = EquationSolution::reduced(eq1, eq2);
    zero_is_zero(value, eq1.0);
    zero_is_zero(value, eq2.0);
    solution_is_root(value, y_coefficient, constant);
    back_substitution_satisfies(value, EquationSolution::deferred(eq1, eq2), y);
    let (a, b, c) = (value(eq1.0), value(eq1.1), value(eq1.2));
    let (m, n, k) = (value(eq2.0), value(eq2.1), value(eq2.2));
    let (vx, vy) = (value(x), value(y));
    if is_zero(eq1.0) {
        zero_product(a, vx);
    } else if is_zero(eq2.0) {
        zero_product(m, vx);
    } else {
        let multiplier = over(eq1.0, eq2.0);
        let mu = value(multiplier);
        same_product(value(y_coefficient), b - mu * n, vy);
        scaled_difference_left(b, mu, n, vy);
        scaled_sum_of_three(mu, m * vx, n * vy, k);
        regrouped(mu, m, vx);
        same_product(mu * m, a, vx);
        cancelled(mu, m, a, real_left_side(value, eq2, x, y));
    }
    assert(value(EquationSolution::left_side(eq1, x, y)) == real_left_side(value, eq1, x, y));
    assert(value(EquationSolution::left_side(eq2, x, y)) == real_left_side(value, eq2, x, y));
}

} // verus!
