use pcg_solver::control::{Outcome, PcgControl};

#[test]
fn early_exit_reports_zero_iterations() {
    // An initial guess that already meets the tolerance ends the solve
    // at once, before any iteration.
    let c = PcgControl::start(10, true);
    assert!(!c.is_active());
    assert_eq!(c.iterations(), 0);
    assert_eq!(c.outcome(), Some(Outcome::Converged));
}

#[test]
fn zero_cap_exhausts_without_iterating() {
    let c = PcgControl::start(0, false);
    assert!(!c.is_active());
    assert_eq!(c.iterations(), 0);
    assert_eq!(c.outcome(), Some(Outcome::Exhausted));
}

#[test]
fn convergence_counts_its_iteration() {
    let mut c = PcgControl::start(5, false);
    assert!(c.is_active());
    assert_eq!(c.outcome(), None);
    assert!(c.begin_iteration(false));
    c.finish_iteration(true);
    assert!(!c.is_active());
    assert_eq!(c.iterations(), 1);
    assert_eq!(c.outcome(), Some(Outcome::Converged));
}

#[test]
fn breakdown_ends_the_solve_and_counts() {
    let mut c = PcgControl::start(5, false);
    assert!(!c.begin_iteration(true));
    assert!(!c.is_active());
    assert_eq!(c.iterations(), 1);
    assert_eq!(c.outcome(), Some(Outcome::BrokenDown));
}

#[test]
fn cap_bounds_the_iteration_count() {
    // Two iterations allowed, neither converges: the solve is exhausted
    // after exactly two.
    let mut c = PcgControl::start(2, false);
    assert!(c.begin_iteration(false));
    c.finish_iteration(false);
    assert!(c.is_active());
    assert!(c.begin_iteration(false));
    c.finish_iteration(false);
    assert!(!c.is_active());
    assert_eq!(c.iterations(), 2);
    assert_eq!(c.outcome(), Some(Outcome::Exhausted));
}
