use mech_solver::scissor_solver::{Scissor, ScissorDimension};
use mech_solver::variable_vector::{VariableF, VariableFPolVec2};
use mech_solver::SolveErr;

fn dim(a: f64, b: f64, c: f64, d: f64) -> ScissorDimension {
    ScissorDimension { a: a.to_bits(), b: b.to_bits(), c: c.to_bits(), d: d.to_bits() }
}

fn symmetric_chain(n: usize) -> Scissor {
    let dims = vec![dim(1.0, 1.0, 0.5, 0.5); n];
    Scissor::new(dims).expect("valid dimensions must construct")
}

fn input(radius: f64, theta: f64) -> VariableFPolVec2 {
    VariableFPolVec2::from(radius.to_bits(), theta.to_bits())
}

fn endpoint_f64(s: &Scissor) -> (f64, f64) {
    let (x, y) = s.get_endpoint().expect("endpoint must be available");
    (f64::from_bits(x), f64::from_bits(y))
}

#[test]
fn construction_rejects_pivot_outside_arm() {
    // a <= c: the pivot would not lie strictly inside the first arm.
    let r = Scissor::new(vec![dim(0.5, 1.0, 0.5, 0.4)]);
    assert!(matches!(r, Err(SolveErr::InvalidDimensions)));
    let r = Scissor::new(vec![dim(0.4, 1.0, 0.5, 0.4)]);
    assert!(matches!(r, Err(SolveErr::InvalidDimensions)));
    let r = Scissor::new(vec![dim(1.0, 0.5, 0.4, 0.5)]);
    assert!(matches!(r, Err(SolveErr::InvalidDimensions)));
}

#[test]
fn construction_rejects_non_positive_lengths() {
    assert!(matches!(
        Scissor::new(vec![dim(1.0, 1.0, 0.0, 0.5)]),
        Err(SolveErr::InvalidDimensions)
    ));
    assert!(matches!(
        Scissor::new(vec![dim(1.0, -1.0, 0.5, 0.5)]),
        Err(SolveErr::InvalidDimensions)
    ));
}

#[test]
fn construction_rejects_one_bad_record_among_good_ones() {
    // b <= d in the middle record.
    let dims = vec![
        dim(1.0, 1.0, 0.5, 0.5),
        dim(1.0, 0.6, 0.5, 0.7),
        dim(1.0, 1.0, 0.5, 0.5),
    ];
    assert!(matches!(Scissor::new(dims), Err(SolveErr::InvalidDimensions)));
}

#[test]
fn query_before_any_solve_requires_solve() {
    let s = symmetric_chain(3);
    assert_eq!(s.get_endpoint(), Err(SolveErr::RequiresSolve));
    assert!(matches!(s.get_lines(), Err(SolveErr::RequiresSolve)));
}

#[test]
fn fully_unknown_driving_input_is_rejected() {
    let mut s = symmetric_chain(3);
    let unknown = VariableFPolVec2 { radius: VariableF::Unknown, theta: VariableF::Unknown };
    assert_eq!(s.solve(unknown), Err(SolveErr::Overconstrained));
    assert_eq!(s.get_endpoint(), Err(SolveErr::RequiresSolve));
}

#[test]
fn partially_unknown_driving_input_fails() {
    let mut s = symmetric_chain(3);
    let half_known = VariableFPolVec2::from_len(0.8f64.to_bits());
    assert_eq!(s.solve(half_known), Err(SolveErr::Overconstrained));
    assert_eq!(s.get_endpoint(), Err(SolveErr::RequiresSolve));
}

#[test]
fn single_element_geometry_matches_hand_solution() {
    // One symmetric unit (arms 1, pivot at 0.5) driven by a gap of 0.8
    // along x: the arm triangle has legs 0.5, 0.5 over a base 0.8, so each
    // arm rises by 0.6 over 0.8, and the unit's tip sits at (0, 0.6).
    let mut s = symmetric_chain(1);
    s.solve(input(0.8, 0.0)).expect("single unit must solve");
    let (x, y) = endpoint_f64(&s);
    assert!(x.abs() < 1e-10);
    assert!((y - 0.6).abs() < 1e-10);
}

#[test]
fn chain_stacks_units_along_y() {
    let mut s = symmetric_chain(4);
    s.solve(input(0.8, 0.0)).expect("chain must solve");
    let (x, y) = endpoint_f64(&s);
    assert!(x.abs() < 1e-9);
    assert!((y - 2.4).abs() < 1e-9);
}

#[test]
fn lines_describe_both_arms_of_each_unit() {
    let mut s = symmetric_chain(1);
    s.solve(input(0.8, 0.0)).expect("single unit must solve");
    let lines = s.get_lines().expect("lines must be available");
    assert_eq!(lines.len(), 2);
    let l1 = lines[0];
    let l2 = lines[1];
    // First arm from the origin to (0.8, 0.6); second from (0.8, 0) to
    // (0, 0.6).
    assert!(f64::from_bits(l1.x1).abs() < 1e-10);
    assert!(f64::from_bits(l1.y1).abs() < 1e-10);
    assert!((f64::from_bits(l1.x2) - 0.8).abs() < 1e-10);
    assert!((f64::from_bits(l1.y2) - 0.6).abs() < 1e-10);
    assert!((f64::from_bits(l2.x1) - 0.8).abs() < 1e-10);
    assert!(f64::from_bits(l2.y1).abs() < 1e-10);
    assert!(f64::from_bits(l2.x2).abs() < 1e-10);
    assert!((f64::from_bits(l2.y2) - 0.6).abs() < 1e-10);
}

#[test]
fn lines_count_two_per_element() {
    let mut s = symmetric_chain(8);
    s.solve(input(0.9, 0.0)).expect("chain must solve");
    let lines = s.get_lines().expect("lines must be available");
    assert_eq!(lines.len(), 16);
}

#[test]
fn repeated_solves_of_identical_geometry_are_bit_identical() {
    let base = symmetric_chain(8);
    let mut first = base.clone();
    first.solve(input(0.9, 0.0)).expect("chain must solve");
    let e1 = first.get_endpoint().expect("endpoint must be available");
    for _ in 0..5 {
        let mut again = base.clone();
        again.solve(input(0.9, 0.0)).expect("chain must solve");
        let e2 = again.get_endpoint().expect("endpoint must be available");
        assert_eq!(e1, e2);
    }
}

#[test]
fn sweep_of_driving_inputs_is_deterministic() {
    let base = symmetric_chain(8);
    for i in 0..50 {
        let radius = 0.998 - 0.001 * (i as f64);
        let mut a = base.clone();
        let mut b = base.clone();
        a.solve(input(radius, 0.0)).expect("chain must solve");
        b.solve(input(radius, 0.0)).expect("chain must solve");
        assert_eq!(
            a.get_endpoint().expect("endpoint must be available"),
            b.get_endpoint().expect("endpoint must be available")
        );
    }
}

#[test]
fn failure_partway_disables_queries() {
    // The first unit solves and hands a vector of length about 0.9 to the
    // second, whose pivot triangle (2, 0.1, 0.9) violates the triangle
    // inequality: the chain solve fails and no stale geometry is readable.
    let dims = vec![dim(1.0, 1.0, 0.5, 0.5), dim(3.0, 1.0, 2.0, 0.1)];
    let mut s = Scissor::new(dims).expect("valid dimensions must construct");
    assert_eq!(s.solve(input(0.9, 0.0)), Err(SolveErr::NotATriangle));
    assert_eq!(s.get_endpoint(), Err(SolveErr::RequiresSolve));
    assert!(matches!(s.get_lines(), Err(SolveErr::RequiresSolve)));
}

#[test]
fn failed_solve_invalidates_an_earlier_successful_one() {
    let mut s = symmetric_chain(2);
    s.solve(input(0.8, 0.0)).expect("chain must solve");
    assert!(s.get_endpoint().is_ok());
    // A fully unknown input fails at once and must invalidate the solved
    // state from the earlier success.
    let unknown = VariableFPolVec2 { radius: VariableF::Unknown, theta: VariableF::Unknown };
    assert_eq!(s.solve(unknown), Err(SolveErr::Overconstrained));
    assert_eq!(s.get_endpoint(), Err(SolveErr::RequiresSolve));
}
