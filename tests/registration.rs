use icp::{
    check_scan_sizes, Action, ConvergenceTally, IcpError, IterationControl, MovableScan, Phase,
    DEFAULT_MAX_ITERATIONS,
};

#[test]
fn empty_reference_is_rejected() {
    assert_eq!(check_scan_sizes(0, 5), Err(IcpError::EmptyReference));
    assert_eq!(check_scan_sizes(0, 0), Err(IcpError::EmptyReference));
}

#[test]
fn empty_movable_is_rejected() {
    assert_eq!(check_scan_sizes(3, 0), Err(IcpError::EmptyMovable));
}

#[test]
fn non_empty_scans_are_accepted() {
    assert_eq!(check_scan_sizes(1, 1), Ok(()));
    assert_eq!(check_scan_sizes(300, 280), Ok(()));
}

#[test]
fn control_runs_guess_then_estimates() {
    let mut c = IterationControl::new(3);
    assert_eq!(c.next_action(), Action::ApplyGuess);
    c.guess_applied();
    assert_eq!(c.next_action(), Action::Estimate);
    assert_eq!(c.iterations(), 0);
}

#[test]
fn control_stops_early_when_both_small() {
    let mut c = IterationControl::new(50);
    c.guess_applied();
    c.increment_applied(false, true);
    c.increment_applied(true, false);
    assert_eq!(c.next_action(), Action::Estimate);
    c.increment_applied(true, true);
    assert_eq!(c.phase, Phase::Converged);
    assert_eq!(c.next_action(), Action::Finalize);
    assert_eq!(c.iterations(), 3);
    assert!(c.converged_early());
    c.finalized();
    assert_eq!(c.next_action(), Action::Finished);
    assert!(c.converged_early());
    assert_eq!(c.iterations(), 3);
}

#[test]
fn control_stops_at_budget() {
    let mut c = IterationControl::new(2);
    c.guess_applied();
    c.increment_applied(false, false);
    assert_eq!(c.next_action(), Action::Estimate);
    c.increment_applied(true, false);
    assert_eq!(c.phase, Phase::MaxIterationsReached);
    assert_eq!(c.next_action(), Action::Finalize);
    c.finalized();
    assert!(!c.converged_early());
    assert_eq!(c.iterations(), 2);
}

#[test]
fn control_converging_on_last_iteration_is_reported() {
    let mut c = IterationControl::new(1);
    c.guess_applied();
    c.increment_applied(true, true);
    assert_eq!(c.phase, Phase::Converged);
    c.finalized();
    assert_eq!(c.phase, Phase::Done { converged: true });
    assert!(c.converged_early());
}

#[test]
fn control_with_zero_budget_finalizes_at_once() {
    let mut c = IterationControl::new(0);
    c.guess_applied();
    assert_eq!(c.next_action(), Action::Finalize);
    assert_eq!(c.iterations(), 0);
}

#[test]
fn default_budget_is_fifty() {
    let c = IterationControl::new_default();
    assert_eq!(c.max_iterations, 50);
    assert_eq!(DEFAULT_MAX_ITERATIONS, 50);
}

#[test]
fn tally_counts_flags() {
    let t = ConvergenceTally::from_flags(&vec![true, false, true, true]);
    assert_eq!(t.converged, 3);
    assert_eq!(t.total, 4);
    assert!(!t.is_complete());
    assert!(!t.is_empty());
}

#[test]
fn tally_all_within_is_complete() {
    let t = ConvergenceTally::from_flags(&vec![true; 7]);
    assert_eq!(t, ConvergenceTally { converged: 7, total: 7 });
    assert!(t.is_complete());
}

#[test]
fn tally_none_within_is_empty() {
    let t = ConvergenceTally::from_flags(&vec![false, false]);
    assert_eq!(t.converged, 0);
    assert!(t.is_empty());
    assert!(!t.is_complete());
}

#[test]
fn tally_ratio_in_unit_interval() {
    let t = ConvergenceTally::from_flags(&vec![false, true, false, true, true]);
    let ratio = t.converged as f32 / t.total as f32;
    assert!((0.0..=1.0).contains(&ratio));
    assert!((ratio - 0.6).abs() < 1e-6);
}

#[test]
fn movable_scan_rejects_empty() {
    assert!(MovableScan::<(i32, i32)>::new(Vec::new()).is_none());
}

#[test]
fn movable_scan_transforms_keep_count_and_order() {
    let pts = vec![(1.0f32, 2.0f32), (-3.0, 0.5), (0.0, 0.0)];
    let mut s = MovableScan::new(pts.clone()).unwrap();
    assert_eq!(s.len(), 3);
    s.transform_each(|p: &(f32, f32)| (p.0 + 1.0, p.1 - 2.0));
    assert_eq!(s.points(), &[(2.0, 0.0), (-2.0, -1.5), (1.0, -2.0)]);
    s.transform_each(|p: &(f32, f32)| (-p.1, p.0));
    let out = s.into_inner();
    assert_eq!(out.len(), pts.len());
    assert_eq!(out, vec![(-0.0, 2.0), (1.5, -2.0), (2.0, 1.0)]);
}
