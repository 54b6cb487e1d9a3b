use geometry3d::line::Line;
use geometry3d::plain::intersection::intersection;
use geometry3d::plain::relations::PlainRelations;
use geometry3d::plain::{Plain, PlainError};
use geometry3d::scalar::Metric;
use geometry3d::vector::Vector;
use std::f64::consts::PI;

fn reals() -> Metric<f64, fn(f64) -> f64, fn(f64) -> f64> {
    Metric::new(f64::sqrt, f64::acos, PI)
}

fn plane(a: f64, b: f64, c: f64, d: f64) -> Plain<f64> {
    Plain { plumb: Vector(a, b, c), constant_d: d }
}

fn lies_in_both(first: &Plain<f64>, second: &Plain<f64>, line: &Line<f64>) {
    assert!(first.contains_line(line));
    assert!(second.contains_line(line));
    for t in [-3.0, -1.0, 0.0, 0.5, 1.0, 2.0, 10.0] {
        let point = line.point_at(t);
        assert_eq!(first.evaluate(&point), 0.0);
        assert_eq!(second.evaluate(&point), 0.0);
    }
}

#[test]
fn coordinate_planes_meet_in_an_axis() {
    let z0 = plane(0.0, 0.0, 1.0, 0.0);
    let y0 = plane(0.0, 1.0, 0.0, 0.0);
    let line = intersection(&z0, &y0).unwrap();
    assert_eq!(line, Line::new(Vector(0.0, 0.0, 0.0), Vector(1.0, 0.0, 0.0)));
    lies_in_both(&z0, &y0, &line);
}

#[test]
fn built_planes_round_trip() {
    // z = 1 and x = 2, each built from three points
    let first = Plain::from_three_points(
        &Vector(0.0, 0.0, 1.0),
        &Vector(1.0, 0.0, 1.0),
        &Vector(0.0, 1.0, 1.0),
    )
    .unwrap();
    let second = Plain::from_three_points(
        &Vector(2.0, 0.0, 0.0),
        &Vector(2.0, 1.0, 0.0),
        &Vector(2.0, 0.0, 1.0),
    )
    .unwrap();
    let line = intersection(&first, &second).unwrap();
    assert_eq!(line, Line::new(Vector(2.0, 0.0, 1.0), Vector(0.0, 1.0, 0.0)));
    lies_in_both(&first, &second, &line);
}

#[test]
fn full_equations_round_trip() {
    // x - y - z - 11 = 0 and 2x - 3y - z - 19 = 0
    let first = plane(1.0, -1.0, -1.0, -11.0);
    let second = plane(2.0, -3.0, -1.0, -19.0);
    let line = intersection(&first, &second).unwrap();
    assert_eq!(line, Line::new(Vector(8.0, 0.0, -3.0), Vector(2.0, 1.0, 1.0)));
    lies_in_both(&first, &second, &line);
}

#[test]
fn one_zero_coefficient_round_trip() {
    // y - z = 0 and x + y + z - 4 = 0
    let first = plane(0.0, 1.0, -1.0, 0.0);
    let second = plane(1.0, 1.0, 1.0, -4.0);
    let line = intersection(&first, &second).unwrap();
    assert_eq!(line, Line::new(Vector(4.0, 0.0, 0.0), Vector(-2.0, 1.0, 1.0)));
    lies_in_both(&first, &second, &line);
    // the same pair in the other order
    let line = intersection(&second, &first).unwrap();
    lies_in_both(&first, &second, &line);
}

#[test]
fn intersecting_plains() {
    let z0 = plane(0.0, 0.0, 1.0, 0.0);
    let y0 = plane(0.0, 1.0, 0.0, 0.0);
    assert_eq!(
        PlainRelations::of(&z0, &y0, &reals()),
        Ok(PlainRelations::Intersect(
            Line::new(Vector(0.0, 0.0, 0.0), Vector(1.0, 0.0, 0.0)),
            PI / 2.0
        ))
    );
}

#[test]
fn no_line_for_dependent_or_null_normals() {
    let z0 = plane(0.0, 0.0, 1.0, 0.0);
    let z1 = plane(0.0, 0.0, 2.0, -2.0);
    let null = plane(0.0, 0.0, 0.0, 1.0);
    assert_eq!(intersection(&z0, &z1), None);
    assert_eq!(intersection(&z0, &null), None);
    assert_eq!(intersection(&null, &z0), None);
    assert_eq!(PlainRelations::of(&z0, &null, &reals()), Err(PlainError::NoIntersectionLine));
    assert_eq!(
        PlainRelations::of(&null, &plane(0.0, 0.0, 0.0, 2.0), &reals()),
        Err(PlainError::NotParallel)
    );
    assert_eq!(PlainRelations::of(&null, &null, &reals()), Ok(PlainRelations::Unite));
}

#[test]
fn no_line_where_the_second_equation_ties_the_same_axes() {
    // y - z = 0 and y + z - 2 = 0 meet in the line (t, 1, 1), which no pair
    // of dependencies over different axes describes
    let first = plane(0.0, 1.0, -1.0, 0.0);
    let second = plane(0.0, 1.0, 1.0, -2.0);
    assert_eq!(intersection(&first, &second), None);
    assert_eq!(PlainRelations::of(&first, &second, &reals()), Err(PlainError::NoIntersectionLine));
}

#[test]
fn no_line_where_the_sources_differ() {
    // y - z = 0 and x - y = 0 give z in terms of y and y in terms of x
    let first = plane(0.0, 1.0, -1.0, 0.0);
    let second = plane(1.0, -1.0, 0.0, 0.0);
    assert_eq!(intersection(&first, &second), None);
}

#[test]
fn elimination_that_leaves_no_z_divides_by_zero() {
    // x + y + z = 0 and x + 2y + z = 0: eliminating x leaves -y = 0, which
    // cannot be solved for z, and the line that comes out lies in neither
    let first = plane(1.0, 1.0, 1.0, 0.0);
    let second = plane(1.0, 2.0, 1.0, 0.0);
    let line = intersection(&first, &second).unwrap();
    assert!(!first.contains_line(&line));
    assert!(!second.contains_line(&line));
}
