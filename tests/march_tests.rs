use rocket_cfd::march::{MarchDriver, SolveOutcome};

#[test]
fn run_stops_when_residual_falls_below_tolerance() {
    let tolerance = 1e-6;
    let residuals = [1e-2, 1e-4, 1e-7, 1e-9];
    let mut d: MarchDriver<f64> = MarchDriver::new(100);
    let mut k = 0;
    while !d.is_finished() {
        let r = residuals[k];
        d.record(r, r < tolerance);
        k += 1;
    }
    assert_eq!(d.iterations(), 3);
    let out = d.into_outcome();
    assert!(out.converged);
    assert_eq!(out.iterations, 3);
    assert_eq!(out.residual_history, vec![1e-2, 1e-4, 1e-7]);
}

#[test]
fn run_without_convergence_takes_max_iter_steps() {
    let mut d: MarchDriver<f64> = MarchDriver::new(5);
    while !d.is_finished() {
        d.record(0.5, false);
    }
    let out = d.into_outcome();
    assert!(!out.converged);
    assert_eq!(out.iterations, 5);
    assert_eq!(out.residual_history.len(), 5);
}

#[test]
fn run_with_zero_max_iter_is_finished_at_once() {
    let d: MarchDriver<f64> = MarchDriver::new(0);
    assert!(d.is_finished());
    let out = d.into_outcome();
    assert!(!out.converged);
    assert_eq!(out.iterations, 0);
    assert!(out.residual_history.is_empty());
}

#[test]
fn cancelled_run_keeps_its_steps_unconverged() {
    let mut d: MarchDriver<f64> = MarchDriver::new(10);
    d.record(0.3, false);
    d.record(0.2, false);
    d.cancel();
    assert!(d.is_finished());
    let out = d.into_outcome();
    assert!(!out.converged);
    assert_eq!(out.iterations, 2);
    assert_eq!(out.residual_history, vec![0.3, 0.2]);
}

#[test]
fn finished_run_has_nonempty_history() {
    for max_iter in 1..6 {
        let mut d: MarchDriver<f64> = MarchDriver::new(max_iter);
        while !d.is_finished() {
            d.record(1.0, false);
        }
        assert!(!d.into_outcome().residual_history.is_empty());
    }
}

#[test]
fn closed_form_outcome_has_one_residual() {
    let out = SolveOutcome::instant(0.0_f64);
    assert_eq!(out.residual_history, vec![0.0]);
    assert!(out.converged);
    assert_eq!(out.iterations, 1);
}
