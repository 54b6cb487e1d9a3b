use geometry3d::line::Line;
use geometry3d::plain::line_relations::PlainLineRelations;
use geometry3d::plain::relations::PlainRelations;
use geometry3d::plain::{Plain, PlainError};
use geometry3d::scalar::Metric;
use geometry3d::vector::Vector;
use std::f64::consts::PI;

fn reals() -> Metric<f64, fn(f64) -> f64, fn(f64) -> f64> {
    Metric::new(f64::sqrt, f64::acos, PI)
}

#[test]
fn creates_new_plain() {
    let plain =
        Plain::new(&Vector(0.0, 0.0, 0.0), &Vector(1.0, 0.0, 0.0), &Vector(0.0, 1.0, 0.0)).unwrap(); // z=0
    assert_eq!(plain.plumb, Vector(0.0, 0.0, 1.0));
    assert_eq!(plain.constant_d, 0.0);
}

#[test]
#[should_panic]
fn creates_new_plain_lindep_dirs() {
    Plain::new(&Vector(0.0, 0.0, 0.0), &Vector(1.0, 0.0, 0.0), &Vector(2.0, 0.0, 0.0)).unwrap();
}

#[test]
fn creates_new_from_intersection() {
    let line1 = Line::new(Vector(0.0, 0.0, 0.0), Vector(1.0, 0.0, 0.0)); // the x axis
    let line2 = Line::new(Vector(0.0, 0.0, 0.0), Vector(0.0, 1.0, 0.0)); // the y axis
    let plain = Plain::from_two_lines(&line1, &line2, &reals()).unwrap();
    assert_eq!(plain.plumb, Vector(0.0, 0.0, 1.0));
    assert_eq!(plain.constant_d, 0.0);
}

#[test]
fn creates_new_from_parallel() {
    let line1 = Line::new(Vector(0.0, 0.0, 0.0), Vector(1.0, 0.0, 0.0)); // the x axis
    let line2 = Line::new(Vector(0.0, 1.0, 0.0), Vector(1.0, 0.0, 0.0)); // the y axis
    let plain = Plain::from_two_lines(&line1, &line2, &reals()).unwrap();
    assert_eq!(plain.plumb, Vector(0.0, 0.0, 1.0));
    assert_eq!(plain.constant_d, 0.0);
}

#[test]
#[should_panic]
fn creates_new_plain_foreign_lines() {
    let line1 = Line::new(Vector(0.0, 0.0, 0.0), Vector(1.0, 0.0, 0.0)); // the x axis
    let line2 = Line::new(Vector(0.0, 0.0, 1.0), Vector(0.0, 1.0, 0.0)); // the y axis
    Plain::from_two_lines(&line1, &line2, &reals()).unwrap();
}

#[test]
fn creates_new_from_3_points() {
    let plain = Plain::from_three_points(
        &Vector(0.0, 0.0, 0.0),
        &Vector(1.0, 0.0, 0.0),
        &Vector(0.0, 1.0, 0.0),
    )
    .unwrap(); // z=0
    assert_eq!(plain.plumb, Vector(0.0, 0.0, 1.0));
    assert_eq!(plain.constant_d, 0.0);
}

#[test]
#[should_panic]
fn creates_new_from_3_points_same_line() {
    Plain::from_three_points(
        &Vector(0.0, 0.0, 0.0),
        &Vector(1.0, 0.0, 0.0),
        &Vector(3.0, 0.0, 0.0),
    )
    .unwrap(); // z=0
}

#[test]
fn contains_point() {
    let origin = Vector(0.0, 0.0, 0.0);
    let plain =
        Plain::from_three_points(&origin, &Vector(1.0, 0.0, 0.0), &Vector(0.0, 1.0, 0.0)).unwrap(); // z=0
    assert!(plain.contains_point(&origin));
    assert!(!plain.contains_point(&Vector(0.0, 0.0, 1.0)))
}

#[test]
fn contains_line() {
    let line1 = Line::new(Vector(0.0, 0.0, 0.0), Vector(1.0, 0.0, 0.0)); // the x axis
    let line2 = Line::new(Vector(0.0, 0.0, 0.0), Vector(0.0, 1.0, 0.0)); // the y axis
    let line3 = Line::new(Vector(0.0, 0.0, 0.0), Vector(0.0, 0.0, 1.0)); // the z axis
    let plain = Plain::from_two_lines(&line1, &line2, &reals()).unwrap();
    assert!(plain.contains_line(&line1));
    assert!(plain.contains_line(&line2));
    assert!(!plain.contains_line(&line3));
}

#[test]
fn distance_from_points() {
    let origin = Vector(0.0, 0.0, 0.0);
    let plain =
        Plain::from_three_points(&origin, &Vector(1.0, 0.0, 0.0), &Vector(0.0, 1.0, 0.0)).unwrap(); // z=0
    assert_eq!(plain.distance_from(&origin, &reals()), 0.0);
    assert_eq!(plain.distance_from(&Vector(0.0, 0.0, 1.0), &reals()), 1.0);
}

#[test]
fn distance_between_plains() {
    let plain1 = Plain::from_three_points(
        &Vector(0.0, 0.0, 0.0),
        &Vector(1.0, 0.0, 0.0),
        &Vector(0.0, 1.0, 0.0),
    )
    .unwrap(); // z=0
    let plain2 = Plain::from_three_points(
        &Vector(0.0, 0.0, 1.0),
        &Vector(1.0, 0.0, 1.0),
        &Vector(1.0, 1.0, 1.0),
    )
    .unwrap(); // z=1
    assert_eq!(Plain::distance_between(&plain1, &plain2, &reals()).unwrap(), 1.0);
}

#[test]
fn angles_with_vector_and_line() {
    const EPSILON: f64 = 0.0001;
    let line1 = Line::new(Vector(0.0, 0.0, 0.0), Vector(1.0, 0.0, 0.0)); // the x axis
    let line2 = Line::new(Vector(0.0, 1.0, 0.0), Vector(1.0, 0.0, 0.0)); // the y axis
    let plain = Plain::from_two_lines(&line1, &line2, &reals()).unwrap();
    let line3 = Line::new(Vector(0.0, 0.0, 0.0), Vector(-1.0, 0.0, 1.0));
    assert!(plain.angle_with_vector(&line3.direction, &reals()) - PI / 4.0 < EPSILON);
    assert!(plain.angle_with_line(&line3, &reals()) - PI / 4.0 < EPSILON);
}

#[test]
fn angle_between_plains() {
    let line1 = Line::new(Vector(0.0, 0.0, 0.0), Vector(1.0, 0.0, 0.0)); // the x axis
    let line2 = Line::new(Vector(0.0, 0.0, 0.0), Vector(0.0, 1.0, 0.0)); // the y axis
    let line3 = Line::new(Vector(0.0, 0.0, 0.0), Vector(0.0, 0.0, 1.0)); // the z axis
    let plain1 = Plain::from_two_lines(&line1, &line2, &reals()).unwrap();
    let plain2 = Plain::from_two_lines(&line1, &line3, &reals()).unwrap();
    assert_eq!(Plain::angle_between(&plain1, &plain2, &reals()), PI / 2.0)
}

#[test]
fn uniting_plains() {
    let origin = Vector(0.0, 0.0, 0.0);
    let plain1 =
        Plain::from_three_points(&origin, &Vector(1.0, 0.0, 0.0), &Vector(0.0, 1.0, 0.0)).unwrap(); // z=0
    let plain2 =
        Plain::from_three_points(&origin, &Vector(1.0, 0.0, 0.0), &Vector(1.0, 1.0, 0.0)).unwrap(); // z=0
    assert_eq!(PlainRelations::of(&plain1, &plain2, &reals()).unwrap(), PlainRelations::Unite)
}

#[test]
fn parallel_plains() {
    let plain1 = Plain::from_three_points(
        &Vector(0.0, 0.0, 0.0),
        &Vector(1.0, 0.0, 0.0),
        &Vector(0.0, 1.0, 0.0),
    )
    .unwrap(); // z=0
    let plain2 = Plain::from_three_points(
        &Vector(0.0, 0.0, 1.0),
        &Vector(1.0, 0.0, 1.0),
        &Vector(1.0, 1.0, 1.0),
    )
    .unwrap(); // z=1
    assert_eq!(
        PlainRelations::of(&plain1, &plain2, &reals()).unwrap(),
        PlainRelations::Parallel(1.0)
    )
}

#[test]
fn construction_errors() {
    let origin = Vector(0.0, 0.0, 0.0);
    let x = Vector(1.0, 0.0, 0.0);
    assert_eq!(Plain::new(&origin, &x, &Vector(2.0, 0.0, 0.0)), Err(PlainError::DependentDirections));
    assert_eq!(
        Plain::from_three_points(&origin, &x, &Vector(3.0, 0.0, 0.0)),
        Err(PlainError::CollinearPoints)
    );
    let x_axis = Line::new(origin, x);
    let same = Line::new(Vector(5.0, 0.0, 0.0), Vector(-2.0, 0.0, 0.0));
    let skew = Line::new(Vector(0.0, 0.0, 1.0), Vector(0.0, 1.0, 0.0));
    assert_eq!(Plain::from_two_lines(&x_axis, &same, &reals()), Err(PlainError::UnitingLines));
    assert_eq!(Plain::from_two_lines(&x_axis, &skew, &reals()), Err(PlainError::ForeignLines));
    let z0 = Plain { plumb: Vector(0.0, 0.0, 1.0), constant_d: 0.0 };
    let y0 = Plain { plumb: Vector(0.0, 1.0, 0.0), constant_d: 0.0 };
    assert_eq!(Plain::distance_between(&z0, &y0, &reals()), Err(PlainError::NotParallel));
}

#[test]
fn plane_through_an_offset_origin() {
    // the plane z = 2
    let plain =
        Plain::new(&Vector(5.0, 7.0, 2.0), &Vector(1.0, 0.0, 0.0), &Vector(0.0, 1.0, 0.0)).unwrap();
    assert_eq!(plain.plumb, Vector(0.0, 0.0, 1.0));
    assert_eq!(plain.constant_d, -2.0);
    assert_eq!(plain.evaluate(&Vector(1.0, 1.0, 5.0)), 3.0);
    assert_eq!(plain.distance_from(&Vector(1.0, 1.0, -1.0), &reals()), 3.0);
}

#[test]
fn distance_between_scaled_normals() {
    // z = 0 and 2z - 6 = 0
    let plain1 = Plain { plumb: Vector(0.0, 0.0, 1.0), constant_d: 0.0 };
    let plain2 = Plain { plumb: Vector(0.0, 0.0, 2.0), constant_d: -6.0 };
    assert_eq!(Plain::distance_between(&plain1, &plain2, &reals()), Ok(3.0));
    assert_eq!(
        PlainRelations::of(&plain1, &plain2, &reals()),
        Ok(PlainRelations::Parallel(3.0))
    );
}

#[test]
fn relation_with_a_line() {
    let z0 = Plain { plumb: Vector(0.0, 0.0, 1.0), constant_d: 0.0 };
    let inside = Line::new(Vector(1.0, 1.0, 0.0), Vector(1.0, 2.0, 0.0));
    let above = Line::new(Vector(1.0, 1.0, 4.0), Vector(1.0, 2.0, 0.0));
    let through = Line::new(Vector(1.0, 1.0, 4.0), Vector(0.0, 0.0, 2.0));
    assert_eq!(z0.relation_with_line(&inside, &reals()), PlainLineRelations::Containing);
    assert_eq!(z0.relation_with_line(&above, &reals()), PlainLineRelations::Parallel(4.0));
    assert_eq!(
        z0.relation_with_line(&through, &reals()),
        PlainLineRelations::Intersect(Vector(1.0, 1.0, 0.0), PI / 2.0)
    );
}
