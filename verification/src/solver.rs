//! The solve-call state machine.
//!
//! One solve call runs up to `nloop` iterations. Every iteration walks the
//! same pipeline of numeric stages, in a fixed order; after each stage the
//! driver reports an [`Event`] and the machine moves to the next [`Phase`]
//! or stops with an outcome. Stopping early with the current iterate is a
//! success (convergence, no finite step bound, or an exhausted budget);
//! a singular scaling diagonal, a failed pseudo-inversion, and a detected
//! unbounded objective are the three failures.

use vstd::prelude::*;

verus! {

/// A failure that ends a solve call with no iterate.
#[derive(Clone, Copy, Debug, PartialEq, Eq)]
pub enum SolveError {
    /// A slack entry was not strictly positive, so the diagonal scaling
    /// matrix has no inverse: the iterate is not strictly feasible.
    SingularScaling,
    /// The pseudo-inverse of the scaled Gram matrix could not be computed.
    Numerical,
    /// No constraint ever tightens along the current direction, so the
    /// objective can be improved without bound.
    Unbounded,
}

/// Why iteration stopped without a failure.
///
/// All three yield the current iterate: exhausting the budget is reported
/// as a success carrying the best iterate found, not as an error.
#[derive(Clone, Copy, Debug, PartialEq, Eq)]
pub enum Termination {
    /// The direction norm fell below the tolerance.
    Converged,
    /// The ratio test found no finite step bound.
    NoFiniteBound,
    /// All `nloop` iterations ran without meeting the tolerance.
    MaxIterationsReached,
}

/// The numeric stage the driver must perform next.
#[derive(Clone, Copy, Debug, PartialEq, Eq)]
pub enum Phase {
    /// Compute the slack vector `vk = b - A*ans` and, when every entry is
    /// strictly positive, invert the diagonal of squared slacks.
    Scale,
    /// Form the scaled Gram matrix `G = A^T * Dinv * A` and compute its
    /// pseudo-inverse.
    Invert,
    /// Compute the direction `d = Gpinv * c` and compare its norm with the
    /// tolerance `eps`.
    Descend,
    /// Compute the slack rates `hv = -A*d` and compare their greatest
    /// entry with zero.
    Rate,
    /// Run the ratio test: the least `vk[i] / hv[i]` over rows with
    /// `hv[i] > 0`.
    Bound,
    /// Take the damped step `ans = ans - gamma * sa * d`.
    Advance,
}

/// What the driver observed while performing the current phase.
#[derive(Clone, Copy, Debug, PartialEq, Eq)]
pub enum Event {
    /// Every slack was strictly positive and the scaling diagonal was
    /// inverted (reported from [`Phase::Scale`]).
    Scaled,
    /// Some slack was zero or negative, so the scaling diagonal cannot be
    /// inverted (reported from [`Phase::Scale`]).
    SingularDiagonal,
    /// The pseudo-inverse of the Gram matrix was computed (reported from
    /// [`Phase::Invert`]).
    Inverted,
    /// The backend failed to compute the pseudo-inverse (reported from
    /// [`Phase::Invert`]).
    InversionFailed,
    /// Whether the direction norm is below the tolerance (reported from
    /// [`Phase::Descend`]).
    Direction { small: bool },
    /// Whether no slack rate is positive, that is the greatest entry of
    /// `hv` is at most zero (reported from [`Phase::Rate`]).
    Rates { none_positive: bool },
    /// Whether the ratio test produced a finite step bound (reported from
    /// [`Phase::Bound`]).
    RatioBound { finite: bool },
    /// The step update was applied to the iterate (reported from
    /// [`Phase::Advance`]).
    Advanced,
}

/// Whether the machine still owes the driver work, or is done.
#[derive(Clone, Copy, Debug, PartialEq, Eq)]
pub enum Status {
    /// The driver must perform `phase` next.
    Running { phase: Phase },
    /// The call is over; on `Ok` the driver returns the current iterate.
    Stopped { outcome: Result<Termination, SolveError> },
}

/// The state of one solve call.
///
/// `started` and `steps` record how many iterations have begun and how
/// many step updates were applied; the driver's iterate equals its
/// starting point exactly when `steps == 0`.
#[derive(Clone, Copy, Debug)]
pub struct Solver {
    /// Where the call stands.
    pub status: Status,
    /// Iterations that may still begin after the current one.
    pub remaining: usize,
    /// Iterations that have begun.
    pub started: usize,
    /// Step updates performed, one per completed iteration.
    pub steps: usize,
}

impl Solver {
    /// The machine a fresh call starts from: with a zero budget it is
    /// already stopped, otherwise the first iteration begins at
    /// [`Phase::Scale`].
    pub open spec fn fresh_spec(nloop: usize) -> Solver {
        if nloop == 0 {
            Solver {
                status: Status::Stopped { outcome: Ok(Termination::MaxIterationsReached) },
                remaining: 0,
                started: 0,
                steps: 0,
            }
        } else {
            Solver {
                status: Status::Running { phase: Phase::Scale },
                remaining: (nloop - 1) as usize,
                started: 1,
                steps: 0,
            }
        }
    }

    /// The machine still owes the driver numeric work.
    pub open spec fn running(self) -> bool {
        self.status is Running
    }

    /// The phase the driver must perform next, while running.
    pub open spec fn phase_spec(self) -> Option<Phase> {
        match self.status {
            Status::Running { phase } => Some(phase),
            Status::Stopped { .. } => None,
        }
    }

    /// The outcome of the call, once stopped.
    pub open spec fn outcome_spec(self) -> Option<Result<Termination, SolveError>> {
        match self.status {
            Status::Running { .. } => None,
            Status::Stopped { outcome } => Some(outcome),
        }
    }

    /// The event `e` is the one the current phase can report: a stopped
    /// machine accepts no event, and a running one only an event of its
    /// phase.
    pub open spec fn accepts(self, e: Event) -> bool {
        match self.status {
            Status::Running { phase } => match (phase, e) {
                (Phase::Scale, Event::Scaled) => true,
                (Phase::Scale, Event::SingularDiagonal) => true,
                (Phase::Invert, Event::Inverted) => true,
                (Phase::Invert, Event::InversionFailed) => true,
                (Phase::Descend, Event::Direction { .. }) => true,
                (Phase::Rate, Event::Rates { .. }) => true,
                (Phase::Bound, Event::RatioBound { .. }) => true,
                (Phase::Advance, Event::Advanced) => true,
                _ => false,
            },
            Status::Stopped { .. } => false,
        }
    }

    /// The machine after the current phase reported `e`.
    ///
    /// This is the whole termination and failure logic of the solver: a
    /// non-positive slack fails with [`SolveError::SingularScaling`]; a
    /// failed pseudo-inversion with [`SolveError::Numerical`]; a small
    /// direction stops as [`Termination::Converged`]; slack rates with no
    /// positive entry fail with [`SolveError::Unbounded`]; a ratio test
    /// with no finite bound stops as [`Termination::NoFiniteBound`]; and a
    /// completed step either begins the next iteration or, with the budget
    /// spent, stops as [`Termination::MaxIterationsReached`].
    pub open spec fn step_spec(self, e: Event) -> Solver {
        match e {
            Event::Scaled => Solver {
                status: Status::Running { phase: Phase::Invert },
                ..self
            },
            Event::SingularDiagonal => Solver {
                status: Status::Stopped { outcome: Err(SolveError::SingularScaling) },
                ..self
            },
            Event::Inverted => Solver {
                status: Status::Running { phase: Phase::Descend },
                ..self
            },
            Event::InversionFailed => Solver {
                status: Status::Stopped { outcome: Err(SolveError::Numerical) },
                ..self
            },
            Event::Direction { small } => if small {
                Solver {
                    status: Status::Stopped { outcome: Ok(Termination::Converged) },
                    ..self
                }
            } else {
                Solver { status: Status::Running { phase: Phase::Rate }, ..self }
            },
            Event::Rates { none_positive } => if none_positive {
                Solver {
                    status: Status::Stopped { outcome: Err(SolveError::Unbounded) },
                    ..self
                }
            } else {
                Solver { status: Status::Running { phase: Phase::Bound }, ..self }
            },
            Event::RatioBound { finite } => if finite {
                Solver { status: Status::Running { phase: Phase::Advance }, ..self }
            } else {
                Solver {
                    status: Status::Stopped { outcome: Ok(Termination::NoFiniteBound) },
                    ..self
                }
            },
            Event::Advanced => if self.remaining == 0 {
                Solver {
                    status: Status::Stopped { outcome: Ok(Termination::MaxIterationsReached) },
                    steps: (self.steps + 1) as usize,
                    ..self
                }
            } else {
                Solver {
                    status: Status::Running { phase: Phase::Scale },
                    remaining: (self.remaining - 1) as usize,
                    started: (self.started + 1) as usize,
                    steps: (self.steps + 1) as usize,
                }
            },
        }
    }

    /// Bookkeeping invariant: every completed iteration was begun, the
    /// iteration in flight is counted in `started` but not yet in `steps`,
    /// and the whole budget fits in a `usize`.
    pub open spec fn wf(self) -> bool {
        &&& self.steps <= self.started
        &&& (self.running() ==> self.steps < self.started)
        &&& self.started + self.remaining <= usize::MAX
    }

    /// Begin a solve call that may run at most `nloop` iterations.
    pub fn new(nloop: usize) -> (s: Solver)
        ensures
            s == Solver::fresh_spec(nloop),
            s.wf(),
    {
        if nloop == 0 {
            Solver {
                status: Status::Stopped { outcome: Ok(Termination::MaxIterationsReached) },
                remaining: 0,
                started: 0,
                steps: 0,
            }
        } else {
            Solver {
                status: Status::Running { phase: Phase::Scale },
                remaining: nloop - 1,
                started: 1,
                steps: 0,
            }
        }
    }

    /// Report what the current phase observed and move the machine on.
    pub fn on_event(&mut self, e: Event)
        requires
            old(self).wf(),
            old(self).accepts(e),
        ensures
            *final(self) == old(self).step_spec(e),
            final(self).wf(),
    {
        match e {
            Event::Scaled => {
                self.status = Status::Running { phase: Phase::Invert };
            },
            Event::SingularDiagonal => {
                self.status = Status::Stopped { outcome: Err(SolveError::SingularScaling) };
            },
            Event::Inverted => {
                self.status = Status::Running { phase: Phase::Descend };
            },
            Event::InversionFailed => {
                self.status = Status::Stopped { outcome: Err(SolveError::Numerical) };
            },
            Event::Direction { small } => {
                if small {
                    self.status = Status::Stopped { outcome: Ok(Termination::Converged) };
                } else {
                    self.status = Status::Running { phase: Phase::Rate };
                }
            },
            Event::Rates { none_positive } => {
                if none_positive {
                    self.status = Status::Stopped { outcome: Err(SolveError::Unbounded) };
                } else {
                    self.status = Status::Running { phase: Phase::Bound };
                }
            },
            Event::RatioBound { finite } => {
                if finite {
                    self.status = Status::Running { phase: Phase::Advance };
                } else {
                    self.status = Status::Stopped { outcome: Ok(Termination::NoFiniteBound) };
                }
            },
            Event::Advanced => {
                self.steps = self.steps + 1;
                if self.remaining == 0 {
                    self.status = Status::Stopped {
                        outcome: Ok(Termination::MaxIterationsReached),
                    };
                } else {
                    self.remaining = self.remaining - 1;
                    self.started = self.started + 1;
                    self.status = Status::Running { phase: Phase::Scale };
                }
            },
        }
    }

    /// True while the driver still owes the machine numeric work.
    pub fn is_running(&self) -> (r: bool)
        ensures
            r == self.running(),
    {
        match self.status {
            Status::Running { .. } => true,
            Status::Stopped { .. } => false,
        }
    }

    /// The phase whose numeric work the driver must perform next, while
    /// the machine is running.
    pub fn phase(&self) -> (p: Option<Phase>)
        ensures
            p == self.phase_spec(),
    {
        match self.status {
            Status::Running { phase } => Some(phase),
            Status::Stopped { .. } => None,
        }
    }

    /// The outcome of the call, once the machine has stopped.
    pub fn outcome(&self) -> (o: Option<Result<Termination, SolveError>>)
        ensures
            o == self.outcome_spec(),
    {
        match self.status {
            Status::Running { .. } => None,
            Status::Stopped { outcome } => Some(outcome),
        }
    }

    /// How many step updates the driver was told to apply.
    pub fn steps_taken(&self) -> (n: usize)
        ensures
            n == self.steps,
    {
        self.steps
    }

    /// How many iterations have begun.
    pub fn iterations_started(&self) -> (n: usize)
        ensures
            n == self.started,
    {
        self.started
    }
}

/// Law: a stopped machine accepts no further event, so its outcome is
/// final.
pub proof fn lemma_outcome_final(s: Solver, e: Event)
    requires
        !s.running(),
    ensures
        !s.accepts(e),
{
}

/// Law: slack rates with no positive entry end the call at once with the
/// unboundedness error — never with an iterate, since the stopped machine
/// accepts no further event.
pub proof fn lemma_unbounded_detection(s: Solver)
    requires
        s.accepts(Event::Rates { none_positive: true }),
    ensures
        s.step_spec(Event::Rates { none_positive: true }).outcome_spec() == Some(
            Err::<Termination, SolveError>(SolveError::Unbounded),
        ),
        forall|e: Event| !#[trigger] s.step_spec(Event::Rates { none_positive: true }).accepts(e),
{
}

/// Law: a zero iteration budget stops the call before any phase is
/// issued: no numeric work is requested, no step update is applied, and
/// the driver hands back its starting point unchanged as a success.
pub proof fn lemma_zero_budget(nloop: usize)
    requires
        nloop == 0,
    ensures
        !Solver::fresh_spec(nloop).running(),
        Solver::fresh_spec(nloop).steps == 0,
        Solver::fresh_spec(nloop).outcome_spec() == Some(
            Ok::<Termination, SolveError>(Termination::MaxIterationsReached),
        ),
{
}

/// Law: when the very first direction already has norm below the
/// tolerance, the machine stops as converged after that single
/// iteration's computation, however large the budget was: exactly one
/// iteration begun and no step update applied, so the driver returns its
/// starting point unchanged.
pub proof fn lemma_convergence_short_circuit(nloop: usize)
    requires
        1 <= nloop,
    ensures
        ({
            let s0 = Solver::fresh_spec(nloop);
            let s1 = s0.step_spec(Event::Scaled);
            let s2 = s1.step_spec(Event::Inverted);
            let s3 = s2.step_spec(Event::Direction { small: true });
            &&& s0.accepts(Event::Scaled)
            &&& s1.accepts(Event::Inverted)
            &&& s2.accepts(Event::Direction { small: true })
            &&& s3.outcome_spec() == Some(
                Ok::<Termination, SolveError>(Termination::Converged),
            )
            &&& s3.steps == 0
            &&& s3.started == 1
        }),
{
}

} // verus!
