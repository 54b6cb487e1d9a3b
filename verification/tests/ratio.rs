use geometry3d::math::ratio::Ratio;

#[test]
fn invalid() {
    assert!(!Ratio::compute(0.0, 3.0).is_valid());
    assert!(!Ratio::compute(1.0, 0.0).is_valid());
}

#[test]
fn zeros() {
    assert_eq!(Ratio::compute(0.0, 0.0), Ratio::compute(1.0, 2.0));
}

#[test]
fn real_ratio() {
    assert_eq!(Ratio::compute(1.0, 2.0), Ratio::compute(2.0, 4.0));
    assert_ne!(Ratio::compute(1.0, 2.0), Ratio::compute(2.0, 3.0));
}

#[test]
fn ratio_variants() {
    assert!(matches!(Ratio::compute(0.0, 0.0), Ratio::Zeros));
    assert!(matches!(Ratio::compute(0.0, 3.0), Ratio::Invalid));
    assert!(matches!(Ratio::compute(1.0, 0.0), Ratio::Invalid));
    match Ratio::compute(3.0, 4.0) {
        Ratio::Real(r) => assert_eq!(r, 0.75),
        _ => panic!("a quotient was expected"),
    }
    assert!(Ratio::compute(0.0, 0.0).is_valid());
    assert!(Ratio::compute(3.0, 4.0).is_valid());
}

#[test]
fn invalid_agrees_with_nothing() {
    let invalid = Ratio::compute(0.0, 3.0);
    assert!(!invalid.agrees_with(&invalid));
    assert!(!invalid.agrees_with(&Ratio::compute(0.0, 0.0)));
    assert!(!Ratio::compute(0.0, 0.0).agrees_with(&invalid));
    assert!(!invalid.agrees_with(&Ratio::compute(1.0, 2.0)));
    assert!(invalid != invalid);
}

#[test]
fn zeros_agree_with_every_valid_ratio() {
    let zeros = Ratio::compute(0.0, 0.0);
    assert!(zeros.agrees_with(&zeros));
    assert!(zeros.agrees_with(&Ratio::compute(5.0, 7.0)));
    assert!(Ratio::compute(5.0, 7.0).agrees_with(&zeros));
    assert!(Ratio::compute(1.0, 2.0).agrees_with(&Ratio::compute(3.0, 6.0)));
    assert!(!Ratio::compute(1.0, 2.0).agrees_with(&Ratio::compute(3.0, 5.0)));
}
