use geometry3d::line::Line;
use geometry3d::math::equation::EquationSolution;
use geometry3d::plain::line_relations::PlainLineRelations;
use geometry3d::plain::Plain;
use geometry3d::scalar::{absolute, equal, negate, vanishes, Metric};
use geometry3d::vector::Vector;
use std::f64::consts::PI;

fn reals() -> Metric<f64, fn(f64) -> f64, fn(f64) -> f64> {
    Metric::new(f64::sqrt, f64::acos, PI)
}

#[test]
fn root_satisfies_its_equation() {
    match EquationSolution::compute(4.0, -10.0) {
        EquationSolution::Real(x) => {
            assert_eq!(x, 2.5);
            assert_eq!(4.0 * x + -10.0, 0.0);
        }
        _ => panic!("a root was expected"),
    }
}

#[test]
fn solution_satisfies_both_equations() {
    let eq1 = (2.0, 3.0, -13.0);
    let eq2 = (4.0, -1.0, -5.0);
    let (x, y) = EquationSolution::compute_multiple(eq1, eq2).unwrap();
    assert_eq!(eq1.0 * x + eq1.1 * y + eq1.2, 0.0);
    assert_eq!(eq2.0 * x + eq2.1 * y + eq2.2, 0.0);
}

#[test]
fn plane_contains_the_points_it_was_built_from() {
    let a = Vector(1.0, 2.0, 3.0);
    let b = Vector(4.0, -1.0, 2.0);
    let c = Vector(0.0, 5.0, -2.0);
    let plain = Plain::from_three_points(&a, &b, &c).unwrap();
    assert_eq!(plain.plumb, Vector(18.0, 16.0, 6.0));
    assert_eq!(plain.constant_d, -68.0);
    assert!(plain.contains_point(&a));
    assert!(plain.contains_point(&b));
    assert!(plain.contains_point(&c));
    assert!(!plain.plumb.is_null());
}

#[test]
fn perpendicular_meets_the_line_at_a_right_angle() {
    let line = Line::new(Vector(1.0, 1.0, 0.0), Vector(2.0, 0.0, 0.0));
    let point = Vector(5.0, 4.0, 4.0);
    // the foot is (5, 1, 0)
    let foot = line.point_at(2.0);
    assert_eq!((foot - point) * line.direction, 0.0);
    assert_eq!(line.distance_from_point(&point, &reals()), 5.0);
}

#[test]
fn line_meets_plane_in_a_point_of_both() {
    let plain = Plain { plumb: Vector(1.0, 1.0, 1.0), constant_d: -6.0 };
    let line = Line::new(Vector(0.0, 0.0, 0.0), Vector(1.0, 2.0, 3.0));
    match plain.relation_with_line(&line, &reals()) {
        PlainLineRelations::Intersect(point, _) => {
            assert_eq!(point, Vector(1.0, 2.0, 3.0));
            assert!(plain.contains_point(&point));
            assert!(line.is_on_line(&point, &reals()));
        }
        _ => panic!("an intersection was expected"),
    }
}

#[test]
fn dependent_vectors_have_a_null_product() {
    let u = Vector(1.0, -2.0, 0.0);
    let v = Vector(-3.0, 6.0, 0.0);
    assert!(u.is_lindep(&v));
    assert!(Vector::vectoric_product(&u, &v).is_null());
    let w = Vector(1.0, -2.0, 1.0);
    assert!(!u.is_lindep(&w));
    assert!(!Vector::vectoric_product(&u, &w).is_null());
}

#[test]
fn scalar_helpers() {
    assert_eq!(absolute(-3.5), 3.5);
    assert_eq!(absolute(3.5), 3.5);
    assert_eq!(absolute(0.0), 0.0);
    assert_eq!(negate(2.0), -2.0);
    assert!(vanishes(0.0));
    assert!(vanishes(-0.0));
    assert!(!vanishes(1e-300));
    assert!(equal(0.5, 0.5));
    assert!(!equal(0.5, 0.25));
    assert!(!equal(f64::NAN, f64::NAN));
}

#[test]
fn folded_angles_are_acute() {
    let m = reals();
    for angle in [0.0, 0.5, PI / 2.0, 2.0, 3.0, PI] {
        let folded = m.fold(angle);
        assert!(0.0 <= folded && folded <= PI / 2.0);
    }
    assert_eq!(m.fold(PI), 0.0);
}

#[test]
fn null_direction_spans_a_plane_without_a_normal() {
    // a null direction is dependent on no vector but the null vector
    let origin = Vector(0.0, 0.0, 0.0);
    let null = Vector(0.0, 0.0, 0.0);
    let plain = Plain::new(&origin, &null, &Vector(1.0, 2.0, 3.0)).unwrap();
    assert!(plain.plumb.is_null());
    assert!(Plain::new(&origin, &null, &null).is_err());
}
