use geometry3d::line::relations::LineRelations;
use geometry3d::line::Line;
use geometry3d::scalar::Metric;
use geometry3d::vector::Vector;
use std::f64::consts::PI;

fn reals() -> Metric<f64, fn(f64) -> f64, fn(f64) -> f64> {
    Metric::new(f64::sqrt, f64::acos, PI)
}

#[test]
fn distance_works() {
    let line = Line::new(Vector(0.0, 0.0, 0.0), Vector(1.0, 0.0, 0.0)); // the x axis
    let distance = line.distance_from_point(&Vector(0.0, 1.0, 0.0), &reals());
    assert_eq!(distance, 1.0);
    let distance = line.distance_from_point(&Vector(0.0, 0.0, 1.0), &reals());
    assert_eq!(distance, 1.0);
    let distance = line.distance_from_point(&Vector(0.0, 0.0, 0.0), &reals());
    assert_eq!(distance, 0.0);
}

#[test]
fn intersection_works() {
    let line1 = Line::new(Vector(0.0, 0.0, 0.0), Vector(1.0, 0.0, 0.0)); // the x axis
    let line2 = Line::new(Vector(0.0, 0.0, 0.0), Vector(0.0, 1.0, 0.0)); // the y axis
    assert_eq!(Line::intersection(&line1, &line2).unwrap(), Vector(0.0, 0.0, 0.0))
}

#[test]
fn line_angle_works() {
    let line1 = Line::new(Vector(0.0, 0.0, 0.0), Vector(1.0, 0.0, 0.0)); // the x axis
    let line2 = Line::new(Vector(0.0, 0.0, 0.0), Vector(-1.0, 1.0, 0.0));
    assert_eq!(Line::angle_between(&line1, &line2, &reals()), PI / 4.0)
}

#[test]
fn same_line() {
    let line1 = Line::new(Vector(0.0, 0.0, 0.0), Vector(1.0, 0.0, 0.0));
    let line2 = Line::new(Vector(0.0, 0.0, 0.0), Vector(2.0, 0.0, 0.0));
    assert_eq!(LineRelations::of(&line1, &line2, &reals()), LineRelations::Unite)
}

#[test]
fn parallel_lines() {
    let line1 = Line::new(Vector(0.0, 0.0, 0.0), Vector(1.0, 0.0, 0.0));
    let line2 = Line::new(Vector(0.0, 1.0, 0.0), Vector(1.0, 0.0, 0.0));
    assert_eq!(LineRelations::of(&line1, &line2, &reals()), LineRelations::Parallel(1.0))
}

#[test]
fn intersecting_lines() {
    let line1 = Line::new(Vector(0.0, 0.0, 0.0), Vector(1.0, 0.0, 0.0)); // the x axis
    let line2 = Line::new(Vector(0.0, 0.0, 0.0), Vector(-1.0, 1.0, 0.0));
    assert_eq!(
        LineRelations::of(&line1, &line2, &reals()),
        LineRelations::Intersect(Vector(0.0, 0.0, 0.0), PI / 4.0)
    );
}

#[test]
fn foreign_lines() {
    let line1 = Line::new(Vector(0.0, 0.0, 0.0), Vector(1.0, 0.0, 0.0));
    let line2 = Line::new(Vector(0.0, 1.0, 0.0), Vector(0.0, 0.0, 1.0));
    assert_eq!(
        LineRelations::of(&line1, &line2, &reals()),
        LineRelations::Foreign(1.0, PI / 2.0)
    )
}

#[test]
fn point_on_line() {
    let line = Line::new(Vector(1.0, 1.0, 1.0), Vector(0.0, 2.0, 0.0));
    assert!(line.is_on_line(&Vector(1.0, -7.0, 1.0), &reals()));
    assert!(!line.is_on_line(&Vector(1.0, -7.0, 2.0), &reals()));
    assert_eq!(line.point_at(3.0), Vector(1.0, 7.0, 1.0));
}

#[test]
fn distance_along_the_perpendicular() {
    let line = Line::new(Vector(1.0, 0.0, 0.0), Vector(0.0, 0.0, 2.0));
    assert_eq!(line.distance_from_point(&Vector(4.0, 4.0, 9.0), &reals()), 5.0);
}

#[test]
fn line_through_two_points() {
    let line = Line::from_two_points(Vector(1.0, 2.0, 3.0), &Vector(2.0, 4.0, 6.0));
    assert_eq!(line.point, Vector(1.0, 2.0, 3.0));
    assert_eq!(line.direction, Vector(1.0, 2.0, 3.0));
}

#[test]
fn intersection_away_from_the_origin() {
    // both lines pass through (1, 2, 3)
    let line1 = Line::new(Vector(0.0, 2.0, 3.0), Vector(1.0, 0.0, 0.0));
    let line2 = Line::new(Vector(1.0, 0.0, 1.0), Vector(0.0, 1.0, 1.0));
    assert_eq!(Line::intersection(&line1, &line2), Some(Vector(1.0, 2.0, 3.0)));
}

#[test]
fn intersection_skips_an_axis_without_coefficients() {
    // both lines lie in the plane x = 1 and meet in (1, 2, 2)
    let line1 = Line::new(Vector(1.0, 0.0, 0.0), Vector(0.0, 1.0, 1.0));
    let line2 = Line::new(Vector(1.0, 4.0, 0.0), Vector(0.0, -1.0, 1.0));
    assert_eq!(Line::intersection(&line1, &line2), Some(Vector(1.0, 2.0, 2.0)));
    // both lines lie in the plane y = 1 and meet in (2, 1, 2)
    let line3 = Line::new(Vector(0.0, 1.0, 0.0), Vector(1.0, 0.0, 1.0));
    let line4 = Line::new(Vector(4.0, 1.0, 0.0), Vector(-1.0, 0.0, 1.0));
    assert_eq!(Line::intersection(&line3, &line4), Some(Vector(2.0, 1.0, 2.0)));
}

#[test]
fn skew_and_parallel_lines_have_no_intersection() {
    let line1 = Line::new(Vector(0.0, 0.0, 0.0), Vector(1.0, 0.0, 0.0));
    let skew = Line::new(Vector(0.0, 1.0, 0.0), Vector(0.0, 0.0, 1.0));
    let parallel = Line::new(Vector(0.0, 1.0, 0.0), Vector(1.0, 0.0, 0.0));
    assert_eq!(Line::intersection(&line1, &skew), None);
    assert_eq!(Line::intersection(&line1, &parallel), None);
}

#[test]
fn angle_is_folded_into_the_first_quadrant() {
    let m = reals();
    assert_eq!(m.fold(3.0), PI - 3.0);
    assert_eq!(m.fold(1.0), 1.0);
    assert_eq!(m.fold(PI / 2.0), PI / 2.0);
    assert_eq!(m.square_root(9.0), 3.0);
    assert_eq!(m.arccos(1.0), 0.0);
}
