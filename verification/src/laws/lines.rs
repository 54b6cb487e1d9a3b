//! Laws of lines.

use crate::laws::reals::{along_direction, same_product, scaled_sum_of_three};
use crate::laws::vectors::{dot_is_real_dot, real_dot};
use crate::line::Line;
use crate::scalar::{exact, zero, Scalar};
use crate::vector::Vector;
use vstd::prelude::*;

verus! {

/// The perpendicular from a point to a line is orthogonal to the line's
/// direction.
pub proof fn perpendicular_is_orthogonal<S: Scalar>(
    value: spec_fn(S) -> real,
    line: Line<S>,
    p: Vector<S>,
)
    requires
        exact(value),
        line.wf(),
    ensures
        line.direction.dot(line.perpendicular(p)) == zero::<S>(),
{
    let d = line.direction;
    let w = line.point.difference(p);
    let t = line.foot_parameter(p);
    let foot = line.perpendicular(p);
    let s = value(t);
    dot_is_real_dot(value, d, d);
    dot_is_real_dot(value, d, w);
    dot_is_real_dot(value, d, foot);
    along_direction(value(d.0), value(w.0), s, value(d.0));
    along_direction(value(d.1), value(w.1), s, value(d.1));
    along_direction(value(d.2), value(w.2), s, value(d.2));
    same_product(value(foot.0), value(w.0) + s * value(d.0), value(d.0));
    same_product(value(foot.1), value(w.1) + s * value(d.1), value(d.1));
    same_product(value(foot.2), value(w.2) + s * value(d.2), value(d.2));
    scaled_sum_of_three(
        s,
        value(d.0) * value(d.0),
        value(d.1) * value(d.1),
        value(d.2) * value(d.2),
    );
}

/// Where two lines meet, the point of their meeting lies on both.
pub proof fn meeting_point_lies_on_both<S: Scalar>(
    value: spec_fn(S) -> real,
    line1: Line<S>,
    line2: Line<S>,
)
    requires
        exact(value),
        line1.meeting(line2) is Some,
    ensures
        exists|t: S| line1.meeting(line2)->Some_0 == #[trigger] line1.at(t),
        exists|s: S| line1.meeting(line2)->Some_0 == #[trigger] line2.at(s),
{
}

} // verus!
