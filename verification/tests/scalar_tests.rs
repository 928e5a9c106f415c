use mech_solver::variable_vector::{Variable, VariableF};

fn fixed(v: f64) -> VariableF {
    VariableF::Fixed(v.to_bits())
}

fn as_f64(s: VariableF) -> f64 {
    match s {
        VariableF::Fixed(bits) => f64::from_bits(bits),
        VariableF::Unknown => panic!("expected a fixed scalar"),
    }
}

#[test]
fn fixed_arithmetic_is_binary64() {
    assert_eq!(as_f64(fixed(2.0).plus(fixed(3.0))), 5.0);
    assert_eq!(as_f64(fixed(5.0).minus(fixed(3.0))), 2.0);
    assert_eq!(as_f64(fixed(2.0).times(fixed(3.0))), 6.0);
    assert_eq!(as_f64(fixed(6.0).div_by(fixed(3.0))), 2.0);
    assert_eq!(as_f64(fixed(1.5).neg()), -1.5);
    assert_eq!(as_f64(fixed(0.0).cos()), 1.0);
    assert_eq!(as_f64(fixed(0.0).sin()), 0.0);
    assert_eq!(as_f64(fixed(1.0).acos()), 0.0);
    assert_eq!(as_f64(fixed(0.0).asin()), 0.0);
}

#[test]
fn trigonometry_matches_mathematical_values() {
    assert!((as_f64(fixed(0.5).sin()) - 0.479425538604203).abs() < 1e-12);
    assert!((as_f64(fixed(0.5).cos()) - 0.8775825618903728).abs() < 1e-12);
    assert!((as_f64(fixed(0.5).acos()) - std::f64::consts::FRAC_PI_3).abs() < 1e-12);
    assert!((as_f64(fixed(0.5).asin()) - std::f64::consts::FRAC_PI_6).abs() < 1e-12);
}

#[test]
fn division_by_zero_follows_ieee() {
    assert_eq!(as_f64(fixed(1.0).div_by(fixed(0.0))), f64::INFINITY);
    assert!(as_f64(fixed(0.0).div_by(fixed(0.0))).is_nan());
}

#[test]
fn unknown_propagates_through_every_operation() {
    let u = VariableF::Unknown;
    let f = fixed(1.0);
    assert_eq!(u.plus(f), VariableF::Unknown);
    assert_eq!(f.plus(u), VariableF::Unknown);
    assert_eq!(u.plus(u), VariableF::Unknown);
    assert_eq!(u.minus(f), VariableF::Unknown);
    assert_eq!(f.minus(u), VariableF::Unknown);
    assert_eq!(u.minus(u), VariableF::Unknown);
    assert_eq!(u.times(f), VariableF::Unknown);
    assert_eq!(f.times(u), VariableF::Unknown);
    assert_eq!(u.times(u), VariableF::Unknown);
    assert_eq!(u.div_by(f), VariableF::Unknown);
    assert_eq!(f.div_by(u), VariableF::Unknown);
    assert_eq!(u.div_by(u), VariableF::Unknown);
    assert_eq!(u.neg(), VariableF::Unknown);
    assert_eq!(u.cos(), VariableF::Unknown);
    assert_eq!(u.sin(), VariableF::Unknown);
    assert_eq!(u.acos(), VariableF::Unknown);
    assert_eq!(u.asin(), VariableF::Unknown);
}

#[test]
fn unknown_minus_unknown_is_not_simplified() {
    let u = VariableF::Unknown;
    assert_eq!(u.minus(u), VariableF::Unknown);
}

#[test]
fn ordering_is_defined_only_between_fixed_values() {
    assert!(fixed(2.0).gt(fixed(1.0)));
    assert!(!fixed(1.0).gt(fixed(2.0)));
    assert!(!fixed(1.0).gt(fixed(1.0)));
    let u = VariableF::Unknown;
    assert!(!u.gt(fixed(1.0)));
    assert!(!fixed(1.0).gt(u));
    assert!(!u.gt(u));
}

#[test]
fn value_equality_is_binary64_equality() {
    assert!(fixed(0.0).val_eq(fixed(-0.0)));
    assert!(fixed(2.0).val_eq(fixed(2.0)));
    assert!(!fixed(2.0).val_eq(fixed(3.0)));
    assert!(!fixed(f64::NAN).val_eq(fixed(f64::NAN)));
    assert!(!VariableF::Unknown.val_eq(fixed(0.0)));
    assert!(VariableF::Unknown.val_eq(VariableF::Unknown));
}

#[test]
fn dof_counts_unknown_components() {
    assert_eq!(fixed(1.0).get_dof(), 0);
    assert_eq!(VariableF::Unknown.get_dof(), 1);
}
