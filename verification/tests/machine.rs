//! Tests of the solve-call state machine alone, with no numeric backend.

use karmarkar::solver::{Event, Phase, SolveError, Solver, Termination};

#[test]
fn zero_budget_stops_immediately() {
    let s = Solver::new(0);
    assert!(!s.is_running());
    assert_eq!(s.phase(), None);
    assert_eq!(s.outcome(), Some(Ok(Termination::MaxIterationsReached)));
    assert_eq!(s.steps_taken(), 0);
    assert_eq!(s.iterations_started(), 0);
}

#[test]
fn pipeline_phases_in_order() {
    let mut s = Solver::new(2);
    assert_eq!(s.phase(), Some(Phase::Scale));
    s.on_event(Event::Scaled);
    assert_eq!(s.phase(), Some(Phase::Invert));
    s.on_event(Event::Inverted);
    assert_eq!(s.phase(), Some(Phase::Descend));
    s.on_event(Event::Direction { small: false });
    assert_eq!(s.phase(), Some(Phase::Rate));
    s.on_event(Event::Rates { none_positive: false });
    assert_eq!(s.phase(), Some(Phase::Bound));
    s.on_event(Event::RatioBound { finite: true });
    assert_eq!(s.phase(), Some(Phase::Advance));
    s.on_event(Event::Advanced);
    assert_eq!(s.phase(), Some(Phase::Scale));
    assert_eq!(s.steps_taken(), 1);
    assert_eq!(s.iterations_started(), 2);
}

#[test]
fn converged_on_first_iteration() {
    let mut s = Solver::new(30);
    s.on_event(Event::Scaled);
    s.on_event(Event::Inverted);
    s.on_event(Event::Direction { small: true });
    assert!(!s.is_running());
    assert_eq!(s.outcome(), Some(Ok(Termination::Converged)));
    assert_eq!(s.steps_taken(), 0);
    assert_eq!(s.iterations_started(), 1);
}

#[test]
fn unbounded_rates_stop_with_error() {
    let mut s = Solver::new(5);
    s.on_event(Event::Scaled);
    s.on_event(Event::Inverted);
    s.on_event(Event::Direction { small: false });
    s.on_event(Event::Rates { none_positive: true });
    assert!(!s.is_running());
    assert_eq!(s.outcome(), Some(Err(SolveError::Unbounded)));
}

#[test]
fn singular_diagonal_stops_with_error() {
    let mut s = Solver::new(5);
    s.on_event(Event::SingularDiagonal);
    assert!(!s.is_running());
    assert_eq!(s.outcome(), Some(Err(SolveError::SingularScaling)));
    assert_eq!(s.steps_taken(), 0);
}

#[test]
fn failed_inversion_stops_with_error() {
    let mut s = Solver::new(5);
    s.on_event(Event::Scaled);
    s.on_event(Event::InversionFailed);
    assert!(!s.is_running());
    assert_eq!(s.outcome(), Some(Err(SolveError::Numerical)));
}

#[test]
fn no_finite_bound_stops_as_success() {
    let mut s = Solver::new(5);
    s.on_event(Event::Scaled);
    s.on_event(Event::Inverted);
    s.on_event(Event::Direction { small: false });
    s.on_event(Event::Rates { none_positive: false });
    s.on_event(Event::RatioBound { finite: false });
    assert!(!s.is_running());
    assert_eq!(s.outcome(), Some(Ok(Termination::NoFiniteBound)));
    assert_eq!(s.steps_taken(), 0);
}

#[test]
fn budget_exhaustion_stops_as_success() {
    let mut s = Solver::new(1);
    s.on_event(Event::Scaled);
    s.on_event(Event::Inverted);
    s.on_event(Event::Direction { small: false });
    s.on_event(Event::Rates { none_positive: false });
    s.on_event(Event::RatioBound { finite: true });
    s.on_event(Event::Advanced);
    assert!(!s.is_running());
    assert_eq!(s.outcome(), Some(Ok(Termination::MaxIterationsReached)));
    assert_eq!(s.steps_taken(), 1);
    assert_eq!(s.iterations_started(), 1);
}
