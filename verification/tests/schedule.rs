use ns_r::quadrature::{
    even_subintervals, node_kind, NodeKind, Plan, Refinement, MAX_DOUBLINGS,
};
use ns_r::scalar::Scalar;

fn s(x: f64) -> Scalar {
    Scalar::from_bits(x.to_bits())
}

fn estimate(plan: Plan) -> Refinement {
    match plan {
        Plan::Estimate(stage) => stage,
        Plan::Finish { .. } => panic!("the run ended early"),
    }
}

fn finish(plan: Plan) -> bool {
    match plan {
        Plan::Finish { converged } => converged,
        Plan::Estimate(_) => panic!("the run went on"),
    }
}

#[test]
fn a_run_begins_on_two_subintervals() {
    let first = Refinement::begin(20);
    assert_eq!(first.subintervals(), 2);
    assert_eq!(first.doublings(), 0);
    assert_eq!(first.max_iter(), 20);
}

#[test]
fn every_stage_doubles_the_subintervals() {
    let mut stage = Refinement::begin(20);
    let mut expected: u64 = 2;
    for k in 0..20 {
        assert_eq!(stage.doublings(), k);
        assert_eq!(stage.subintervals(), expected);
        stage = estimate(stage.next());
        expected *= 2;
    }
    assert_eq!(stage.doublings(), 20);
    assert_eq!(stage.subintervals(), 2_097_152);
    assert!(!finish(stage.next()));
}

#[test]
fn a_cap_of_zero_ends_the_run_after_the_first_estimate() {
    let first = Refinement::begin(0);
    assert_eq!(first.subintervals(), 2);
    assert!(!finish(first.next()));
}

#[test]
fn the_largest_cap_reaches_two_to_the_sixty_three() {
    let mut stage = Refinement::begin(MAX_DOUBLINGS);
    for _ in 0..MAX_DOUBLINGS {
        stage = estimate(stage.next());
    }
    assert_eq!(stage.subintervals(), 1_u64 << 63);
    assert_eq!(stage.doublings(), 62);
    assert!(!finish(stage.next()));
}

#[test]
fn a_change_below_the_precision_ends_the_run_as_converged() {
    let stage = estimate(Refinement::begin(20).next());
    assert!(finish(stage.judge(s(1.0e-10), s(1.0e-9))));
    assert!(finish(stage.judge(s(0.0), s(1.0e-9))));
}

#[test]
fn a_change_at_or_above_the_precision_refines() {
    let stage = estimate(Refinement::begin(20).next());
    let next = estimate(stage.judge(s(1.0e-9), s(1.0e-9)));
    assert_eq!(next.subintervals(), 8);
    assert_eq!(next.doublings(), 2);
    let next = estimate(stage.judge(s(0.5), s(1.0e-9)));
    assert_eq!(next.subintervals(), 8);
}

#[test]
fn an_undefined_change_never_counts_as_agreement() {
    let stage = estimate(Refinement::begin(20).next());
    let next = estimate(stage.judge(s(f64::NAN), s(1.0e-9)));
    assert_eq!(next.subintervals(), 8);
    let next = estimate(stage.judge(s(f64::INFINITY), s(1.0e-9)));
    assert_eq!(next.subintervals(), 8);
}

#[test]
fn the_last_stage_ends_the_run_unconverged_or_converged() {
    let mut stage = Refinement::begin(3);
    for _ in 0..3 {
        stage = estimate(stage.judge(s(1.0), s(1.0e-9)));
    }
    assert_eq!(stage.subintervals(), 16);
    assert!(!finish(stage.judge(s(1.0), s(1.0e-9))));
    assert!(finish(stage.judge(s(1.0e-12), s(1.0e-9))));
}

#[test]
fn an_odd_count_is_forced_to_the_next_even_one() {
    assert_eq!(even_subintervals(0), 0);
    assert_eq!(even_subintervals(1), 2);
    assert_eq!(even_subintervals(2), 2);
    assert_eq!(even_subintervals(7), 8);
    assert_eq!(even_subintervals(1024), 1024);
    assert_eq!(even_subintervals(u64::MAX - 2), u64::MAX - 1);
    assert_eq!(even_subintervals(u64::MAX - 1), u64::MAX - 1);
}

#[test]
fn the_nodes_weigh_one_four_two() {
    let kinds: Vec<NodeKind> = (0..=6).map(|i| node_kind(i, 6)).collect();
    assert_eq!(
        kinds,
        vec![
            NodeKind::Endpoint,
            NodeKind::Odd,
            NodeKind::Even,
            NodeKind::Odd,
            NodeKind::Even,
            NodeKind::Odd,
            NodeKind::Endpoint,
        ]
    );
    let weights: Vec<u64> = kinds.iter().map(|k| k.weight()).collect();
    assert_eq!(weights, vec![1, 4, 2, 4, 2, 4, 1]);
}

#[test]
fn the_weights_of_two_subintervals_are_one_four_one() {
    let weights: Vec<u64> = (0..=2).map(|i| node_kind(i, 2).weight()).collect();
    assert_eq!(weights, vec![1, 4, 1]);
}

#[test]
fn the_weights_add_up_to_three_per_subinterval() {
    for n in [2_u64, 4, 6, 8, 64, 1000] {
        let total: u64 = (0..=n).map(|i| node_kind(i, n).weight()).sum();
        assert_eq!(total, 3 * n);
    }
}

#[test]
fn a_third_of_the_weighted_sum_integrates_a_cubic_exactly() {
    let cubic = |x: i64| 5 - 3 * x + 2 * x * x + 7 * x * x * x;
    let antiderivative_times_12 =
        |x: i64| 60 * x - 18 * x * x + 8 * x * x * x + 21 * x * x * x * x;
    for n in [2_u64, 4, 10, 32] {
        let weighted: i64 =
            (0..=n).map(|i| node_kind(i, n).weight() as i64 * cubic(i as i64)).sum();
        assert_eq!(4 * weighted, antiderivative_times_12(n as i64));
    }
}
