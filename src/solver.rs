use vstd::prelude::*;

verus! {

/// The most iterations a latitude solver makes before it gives up.
pub const MAX_ITERATIONS: u32 = 100;

/// What a latitude solver does after a convergence test.
#[derive(Clone, Copy, Debug, PartialEq, Eq, Structural)]
pub enum Step {
    /// The last two estimates are within tolerance: the last one is the result.
    Converged,
    /// Compute one more estimate and test again.
    Continue,
    /// The iteration cap is reached without convergence: a computation fault.
    Diverged,
}

/// The step after a convergence test that came out `converged`, with
/// `count` iterations made, and the count of iterations after it.
pub open spec fn next(count: int, converged: bool) -> (Step, int) {
    if converged {
        (Step::Converged, count)
    } else if count >= MAX_ITERATIONS {
        (Step::Diverged, count)
    } else {
        (Step::Continue, count + 1)
    }
}

/// The index of the convergence test at which a solver that has made `count`
/// iterations stops, when the tests come out as `tests`; `None` when it has
/// not stopped by their end.
pub open spec fn stop_index(count: int, tests: Seq<bool>) -> Option<int>
    decreases tests.len(),
{
    if tests.len() == 0 {
        None
    } else {
        let (step, after) = next(count, tests[0]);
        if step == Step::Continue {
            match stop_index(after, tests.drop_first()) {
                Some(i) => Some(i + 1),
                None => None,
            }
        } else {
            Some(0)
        }
    }
}

/// The iteration bookkeeping of a fixed-point latitude solver.
///
/// The caller computes the estimates; after each one it reports whether the
/// last two are within tolerance, and the solver tells it whether to go on.
#[derive(Clone, Copy, Debug, PartialEq, Eq, Structural)]
pub struct Solver {
    pub iterations: u32,
}

impl Solver {
    pub open spec fn wf(self) -> bool {
        self.iterations <= MAX_ITERATIONS
    }

    /// A solver that has computed its seed and first estimate.
    pub fn new() -> (r: Solver)
        ensures
            r.wf(),
            r.iterations == 0,
    {
        Solver { iterations: 0 }
    }

    /// Records the outcome of a convergence test and decides what follows.
    pub fn step(&mut self, converged: bool) -> (r: Step)
        requires
            old(self).wf(),
        ensures
            final(self).wf(),
            (r, final(self).iterations as int) == next(old(self).iterations as int, converged),
    {
        if converged {
            Step::Converged
        } else if self.iterations >= MAX_ITERATIONS {
            Step::Diverged
        } else {
            self.iterations = self.iterations + 1;
            Step::Continue
        }
    }
}

/// A solver stops within the iteration cap, whatever its convergence tests
/// give: one that has made `count` iterations stops at one of the next
/// `MAX_ITERATIONS - count + 1` tests.
pub proof fn lemma_solver_stops(count: int, tests: Seq<bool>)
    requires
        0 <= count <= MAX_ITERATIONS,
        tests.len() > MAX_ITERATIONS - count,
    ensures
        stop_index(count, tests) matches Some(i) && 0 <= i <= MAX_ITERATIONS - count,
    decreases MAX_ITERATIONS - count,
{
    let (step, after) = next(count, tests[0]);
    if step == Step::Continue {
        lemma_solver_stops(after, tests.drop_first());
    }
}

} // verus!
