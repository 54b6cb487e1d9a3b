use geometry3d::scalar::Metric;
use geometry3d::vector::Vector;
use std::f64::consts::PI;

fn reals() -> Metric<f64, fn(f64) -> f64, fn(f64) -> f64> {
    Metric::new(f64::sqrt, f64::acos, PI)
}

#[test]
fn sum_works() {
    assert_eq!(Vector(0.0, 0.0, 1.0) + Vector(0.0, 1.0, 0.0), Vector(0.0, 1.0, 1.0));
    assert_eq!(Vector(0.0, 0.0, 1.0) + Vector(0.0, 1.0, 1.0), Vector(0.0, 1.0, 2.0));
}

#[test]
fn subtract_works() {
    assert_eq!(Vector(0.0, 0.0, 1.0) - Vector(0.0, 1.0, 0.0), Vector(0.0, -1.0, 1.0));
    assert_eq!(Vector(0.0, 0.0, 1.0) - Vector(0.0, 1.0, 1.0), Vector(0.0, -1.0, 0.0));
}

#[test]
fn scalaric_product_works() {
    assert_eq!(Vector(0.0, 0.0, 1.0) * Vector(0.0, 1.0, 0.0), 0.0);
    assert_eq!(Vector(0.0, 0.0, 1.0) * Vector(0.0, 1.0, 1.0), 1.0);
}

#[test]
fn multiply_by_scalar() {
    assert_eq!(Vector(1.0, 2.0, 3.0).scale(2.0), Vector(2.0, 4.0, 6.0));
}

#[test]
fn linear_ratio() {
    assert_eq!((Vector(2.0, 4.0, 6.0) / Vector(1.0, 2.0, 3.0)).unwrap(), 2.0);
    assert_eq!((Vector(2.0, 0.0, 6.0) / Vector(1.0, 0.0, 3.0)).unwrap(), 2.0);
    assert_eq!((Vector(2.0, 0.0, 0.0) / Vector(1.0, 0.0, 0.0)).unwrap(), 2.0);
    assert!((Vector(2.0, 0.0, 1.0) / Vector(1.0, 0.0, 0.0)).is_err());
}

#[test]
fn length_works() {
    assert_eq!(Vector(0.0, 0.0, 1.0).length(&reals()), 1.0);
    assert_eq!(Vector(2.0, 2.0, 1.0).length(&reals()), 3.0);
}

#[test]
fn dependency_works() {
    assert!(Vector(0.0, 0.0, 1.0).is_lindep(&Vector(0.0, 0.0, 2.0)));
    assert!(!Vector(0.0, 0.0, 1.0).is_lindep(&Vector(0.0, 1.0, 2.0)));
    assert!(Vector(2.0, 2.0, 1.0).is_lindep(&Vector(4.0, 4.0, 2.0)));
}

#[test]
fn vector_angle_works() {
    const EPSILON: f64 = 0.00001;
    assert_eq!(
        Vector::angle_between(&Vector(0.0, 0.0, 1.0), &Vector(0.0, 1.0, 0.0), &reals()),
        PI / 2.0
    );
    assert!(
        (Vector::angle_between(&Vector(0.0, 0.0, 1.0), &Vector(0.0, 1.0, 1.0), &reals())
            - PI / 4.0)
            .abs()
            < EPSILON
    );
}

#[test]
fn vectoric_product_works() {
    assert!(Vector::vectoric_product(&Vector(0.0, 0.0, 1.0), &Vector(0.0, 1.0, 0.0))
        .is_lindep(&Vector(1.0, 0.0, 0.0)));
}

#[test]
fn vectoric_product_is_right_handed() {
    assert_eq!(
        Vector::vectoric_product(&Vector(1.0, 0.0, 0.0), &Vector(0.0, 1.0, 0.0)),
        Vector(0.0, 0.0, 1.0)
    );
    assert_eq!(
        Vector::vectoric_product(&Vector(1.0, 2.0, 3.0), &Vector(4.0, 5.0, 6.0)),
        Vector(-3.0, 6.0, -3.0)
    );
}

#[test]
fn scalar_product_commutes() {
    let u = Vector(1.0, -2.0, 3.0);
    let v = Vector(4.0, 5.0, -6.0);
    assert_eq!(u * v, v * u);
    assert_eq!(u * v, -24.0);
}

#[test]
fn vector_product_anticommutes() {
    let u = Vector(1.0, -2.0, 3.0);
    let v = Vector(4.0, 5.0, -6.0);
    let uv = Vector::vectoric_product(&u, &v);
    let vu = Vector::vectoric_product(&v, &u);
    assert_eq!(uv, vu.scale(-1.0));
    assert_eq!(uv, Vector(-3.0, 18.0, 13.0));
}

#[test]
fn vector_product_is_orthogonal_to_both() {
    let u = Vector(1.0, -2.0, 3.0);
    let v = Vector(4.0, 5.0, -6.0);
    let w = Vector::vectoric_product(&u, &v);
    assert_eq!(w * u, 0.0);
    assert_eq!(w * v, 0.0);
}

#[test]
fn null_vectors_are_dependent_without_a_ratio() {
    let null = Vector(0.0, 0.0, 0.0);
    assert!(null.is_null());
    assert!(null.is_lindep(&null));
    assert!((null / null).is_err());
    assert!(!null.is_lindep(&Vector(1.0, 2.0, 3.0)));
    assert!(!Vector(1.0, 2.0, 3.0).is_null());
}

#[test]
fn coincides_compares_coordinates() {
    assert!(Vector(1.0, 0.0, -0.0).coincides(&Vector(1.0, -0.0, 0.0)));
    assert!(!Vector(1.0, 0.0, 0.0).coincides(&Vector(1.0, 0.0, 1.0)));
    assert!(!Vector(f64::NAN, 0.0, 0.0).coincides(&Vector(f64::NAN, 0.0, 0.0)));
}
