//! Whole-run laws, stated over sequences of reported events.

use vstd::prelude::*;

use crate::solver::{Event, Solver};

verus! {

/// The machine after reporting each event of `tr` in order.
pub open spec fn run(s: Solver, tr: Seq<Event>) -> Solver
    decreases tr.len(),
{
    if tr.len() == 0 {
        s
    } else {
        run(s.step_spec(tr[0]), tr.subrange(1, tr.len() as int))
    }
}

/// Every event of `tr` is accepted in turn from `s`.
pub open spec fn legal(s: Solver, tr: Seq<Event>) -> bool
    decreases tr.len(),
{
    tr.len() == 0 || (s.accepts(tr[0]) && legal(s.step_spec(tr[0]), tr.subrange(
        1,
        tr.len() as int,
    )))
}

/// One accepted event keeps the invariant and never grows the budget.
proof fn lemma_budget_step(s: Solver, e: Event, cap: usize)
    requires
        s.wf(),
        s.accepts(e),
        s.started + s.remaining <= cap,
    ensures
        s.step_spec(e).wf(),
        s.step_spec(e).started + s.step_spec(e).remaining <= cap,
{
}

/// A legal trace keeps the invariant and never grows the budget.
proof fn lemma_budget_run(s: Solver, tr: Seq<Event>, cap: usize)
    requires
        s.wf(),
        legal(s, tr),
        s.started + s.remaining <= cap,
    ensures
        run(s, tr).wf(),
        run(s, tr).started + run(s, tr).remaining <= cap,
    decreases tr.len(),
{
    if tr.len() != 0 {
        lemma_budget_step(s, tr[0], cap);
        lemma_budget_run(s.step_spec(tr[0]), tr.subrange(1, tr.len() as int), cap);
    }
}

/// Law: no run exceeds its iteration budget. Whatever events a driver
/// legally reports from a fresh machine with budget `nloop`, at most
/// `nloop` iterations have begun and at most `nloop` step updates were
/// applied to the iterate.
pub proof fn lemma_iteration_ceiling(nloop: usize, tr: Seq<Event>)
    requires
        legal(Solver::fresh_spec(nloop), tr),
    ensures
        run(Solver::fresh_spec(nloop), tr).started <= nloop,
        run(Solver::fresh_spec(nloop), tr).steps <= nloop,
{
    let s0 = Solver::fresh_spec(nloop);
    assert(s0.wf());
    assert(s0.started + s0.remaining <= nloop);
    lemma_budget_run(s0, tr, nloop);
}

} // verus!
