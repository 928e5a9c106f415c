use mech_solver::variable_vector::{
    cross_product, dot_product, Variable, VariableF, VariableFPolVec2, VariableFRecVec2,
};

fn fixed(v: f64) -> VariableF {
    VariableF::Fixed(v.to_bits())
}

fn as_f64(s: VariableF) -> f64 {
    match s {
        VariableF::Fixed(bits) => f64::from_bits(bits),
        VariableF::Unknown => panic!("expected a fixed scalar"),
    }
}

#[test]
fn polar_to_rectangular_of_fixed_vector() {
    let v = VariableFPolVec2::from(2.0f64.to_bits(), 0.0f64.to_bits());
    let r = v.to_rec();
    assert!((as_f64(r.x) - 2.0).abs() < 1e-12);
    assert!(as_f64(r.y).abs() < 1e-12);
}

#[test]
fn rectangular_to_polar_of_fixed_vector() {
    let v = VariableFRecVec2::from(3.0f64.to_bits(), 4.0f64.to_bits());
    let p = v.to_pol();
    assert!((as_f64(p.radius) - 5.0).abs() < 1e-12);
    assert!((as_f64(p.theta) - 4.0f64.atan2(3.0)).abs() < 1e-12);
}

#[test]
fn polar_round_trip_recovers_fixed_components() {
    let v = VariableFPolVec2::from(2.0f64.to_bits(), 0.7f64.to_bits());
    let back = v.to_rec().to_pol();
    assert!((as_f64(back.radius) - 2.0).abs() < 1e-10);
    assert!((as_f64(back.theta) - 0.7).abs() < 1e-10);
}

#[test]
fn polar_round_trip_with_unknown_radius_is_fully_unknown() {
    let v = VariableFPolVec2 { radius: VariableF::Unknown, theta: fixed(0.7) };
    let rec = v.to_rec();
    assert_eq!(rec.x, VariableF::Unknown);
    assert_eq!(rec.y, VariableF::Unknown);
    let back = rec.to_pol();
    assert_eq!(back.radius, VariableF::Unknown);
    assert_eq!(back.theta, VariableF::Unknown);
}

#[test]
fn polar_round_trip_with_unknown_theta_is_fully_unknown() {
    let v = VariableFPolVec2::from_len(2.0f64.to_bits());
    let back = v.to_rec().to_pol();
    assert_eq!(back.radius, VariableF::Unknown);
    assert_eq!(back.theta, VariableF::Unknown);
}

#[test]
fn polar_addition_round_trips_through_rectangular() {
    let a = VariableFPolVec2::from(1.0f64.to_bits(), 0.0f64.to_bits());
    let b = VariableFPolVec2::from(1.0f64.to_bits(), std::f64::consts::FRAC_PI_2.to_bits());
    let s = a.plus(b);
    assert!((as_f64(s.radius) - std::f64::consts::SQRT_2).abs() < 1e-10);
    assert!((as_f64(s.theta) - std::f64::consts::FRAC_PI_4).abs() < 1e-10);
}

#[test]
fn polar_negation_keeps_radius_and_turns_by_pi() {
    let v = VariableFPolVec2::from(2.0f64.to_bits(), 0.5f64.to_bits());
    let n = v.neg();
    assert_eq!(as_f64(n.radius), 2.0);
    assert_eq!(as_f64(n.theta), 0.5 + std::f64::consts::PI);
}

#[test]
fn cross_and_dot_products_of_fixed_vectors() {
    let e1 = VariableFRecVec2::from(1.0f64.to_bits(), 0.0f64.to_bits());
    let e2 = VariableFRecVec2::from(0.0f64.to_bits(), 1.0f64.to_bits());
    assert_eq!(as_f64(cross_product(e1, e2)), 1.0);
    assert_eq!(as_f64(cross_product(e2, e1)), -1.0);
    let a = VariableFRecVec2::from(1.0f64.to_bits(), 2.0f64.to_bits());
    let b = VariableFRecVec2::from(3.0f64.to_bits(), 4.0f64.to_bits());
    assert_eq!(as_f64(dot_product(a, b)), 11.0);
}

#[test]
fn products_with_unknown_components_are_unknown() {
    let u = VariableFRecVec2 { x: VariableF::Unknown, y: fixed(1.0) };
    let f = VariableFRecVec2::from(1.0f64.to_bits(), 0.0f64.to_bits());
    assert_eq!(cross_product(u, f), VariableF::Unknown);
    assert_eq!(dot_product(f, u), VariableF::Unknown);
}

#[test]
fn vector_dof_sums_component_dofs() {
    assert_eq!(VariableFPolVec2::from(1.0f64.to_bits(), 0.0f64.to_bits()).get_dof(), 0);
    assert_eq!(VariableFPolVec2::from_len(1.0f64.to_bits()).get_dof(), 1);
    let u = VariableFPolVec2 { radius: VariableF::Unknown, theta: VariableF::Unknown };
    assert_eq!(u.get_dof(), 2);
}
