//! Control state machine of the preconditioned conjugate-gradient loop.
//!
//! One solve starts, iterates, and ends in one of three terminal
//! outcomes: converged, broken down (a degenerate search direction), or
//! exhausted (the iteration cap was reached with neither). The
//! numeric work of each iteration happens outside; the controller here
//! owns every decision: whether the initial guess already meets the
//! tolerance, whether a near-zero curvature `p·Ap` forces a breakdown,
//! whether the residual has dropped below the threshold, and when the
//! cap ends the loop. Each iteration is driven by two calls: one with
//! the curvature test, one with the residual test.

use vstd::prelude::*;

verus! {

/// How a finished solve ended.
#[derive(Clone, Copy, Debug, PartialEq, Eq, Structural)]
pub enum Outcome {
    /// The residual norm dropped below the convergence threshold.
    Converged,
    /// A near-zero `p·Ap` ended the loop before the update of `x` and `r`.
    BrokenDown,
    /// The iteration cap was reached with neither of the other two.
    Exhausted,
}

/// Where the loop stands.
#[derive(Clone, Copy, Debug, PartialEq, Eq, Structural)]
pub enum Phase {
    /// Ready to begin the next iteration.
    BetweenIterations,
    /// An iteration has begun and awaits its residual test.
    MidIteration,
    /// The solve is over.
    Done(Outcome),
}

/// The iteration-control state of one solve: the cap, the count of
/// iterations begun so far, and the phase.
pub struct PcgControl {
    pub max_iter: u32,
    pub iter: u32,
    pub phase: Phase,
}

impl PcgControl {
    /// Every state the controller can reach keeps the count within the
    /// cap, counts any begun iteration, ties an exhausted end to the cap,
    /// and leaves room for the next iteration while the loop is open.
    pub open spec fn wf(self) -> bool {
        &&& self.iter <= self.max_iter
        &&& (self.phase is BetweenIterations ==> self.iter < self.max_iter)
        &&& (self.phase is MidIteration ==> 1 <= self.iter)
        &&& (self.phase == Phase::Done(Outcome::BrokenDown) ==> 1 <= self.iter)
        &&& (self.phase == Phase::Done(Outcome::Exhausted) ==> self.iter == self.max_iter)
    }

    /// Open a solve. `initial_residual_small` reports whether
    /// `‖b − A·x0‖` is already below the threshold: then the solve is
    /// over at once with zero iterations (the early exit). Otherwise the
    /// loop opens, unless the cap itself is zero.
    pub fn start(max_iter: u32, initial_residual_small: bool) -> (c: PcgControl)
        ensures
            c.wf(),
            c.max_iter == max_iter,
            c.iter == 0,
            initial_residual_small ==> c.phase == Phase::Done(Outcome::Converged),
            !initial_residual_small && max_iter == 0 ==> c.phase == Phase::Done(Outcome::Exhausted),
            !initial_residual_small && max_iter > 0 ==> c.phase == Phase::BetweenIterations,
    {
        if initial_residual_small {
            PcgControl { max_iter, iter: 0, phase: Phase::Done(Outcome::Converged) }
        } else if max_iter == 0 {
            PcgControl { max_iter, iter: 0, phase: Phase::Done(Outcome::Exhausted) }
        } else {
            PcgControl { max_iter, iter: 0, phase: Phase::BetweenIterations }
        }
    }

    /// Begin one iteration, which counts toward the total whether or not
    /// it completes. `direction_degenerate` reports whether `|p·Ap|` is
    /// below the breakdown guard: then the solve ends at once as a
    /// breakdown and the caller must skip the update of `x` and `r`.
    /// The result says whether to proceed with the iteration's updates.
    pub fn begin_iteration(&mut self, direction_degenerate: bool) -> (proceed: bool)
        requires
            old(self).wf(),
            old(self).phase is BetweenIterations,
        ensures
            final(self).wf(),
            final(self).max_iter == old(self).max_iter,
            final(self).iter == old(self).iter + 1,
            direction_degenerate ==> final(self).phase == Phase::Done(Outcome::BrokenDown) && !proceed,
            !direction_degenerate ==> final(self).phase == Phase::MidIteration && proceed,
    {
        self.iter = self.iter + 1;
        if direction_degenerate {
            self.phase = Phase::Done(Outcome::BrokenDown);
            false
        } else {
            self.phase = Phase::MidIteration;
            true
        }
    }

    /// Close the iteration begun last. `residual_small` reports whether
    /// the freshly updated `‖r‖` is below the threshold: then the solve
    /// converged, counting this iteration. Otherwise the loop stays open
    /// unless this iteration was the last the cap allows, which ends the
    /// solve as exhausted.
    pub fn finish_iteration(&mut self, residual_small: bool)
        requires
            old(self).wf(),
            old(self).phase is MidIteration,
        ensures
            final(self).wf(),
            final(self).max_iter == old(self).max_iter,
            final(self).iter == old(self).iter,
            residual_small ==> final(self).phase == Phase::Done(Outcome::Converged),
            !residual_small && old(self).iter == old(self).max_iter ==> final(self).phase == Phase::Done(Outcome::Exhausted),
            !residual_small && old(self).iter < old(self).max_iter ==> final(self).phase == Phase::BetweenIterations,
    {
        if residual_small {
            self.phase = Phase::Done(Outcome::Converged);
        } else if self.iter == self.max_iter {
            self.phase = Phase::Done(Outcome::Exhausted);
        } else {
            self.phase = Phase::BetweenIterations;
        }
    }

    /// Whether the loop is still open: the caller keeps iterating
    /// exactly while this holds.
    pub fn is_active(&self) -> (r: bool)
        ensures
            r == (self.phase is BetweenIterations),
    {
        matches!(self.phase, Phase::BetweenIterations)
    }

    /// The count of iterations begun, reported to the caller of the
    /// solve.
    pub fn iterations(&self) -> (r: u32)
        ensures
            r == self.iter,
    {
        self.iter
    }

    /// How the solve ended, or nothing while it is still open.
    pub fn outcome(&self) -> (r: Option<Outcome>)
        ensures
            (match self.phase {
                Phase::Done(o) => r == Some(o),
                _ => r is None,
            }),
    {
        match self.phase {
            Phase::Done(o) => Some(o),
            _ => None,
        }
    }
}

/// The reported iteration count never exceeds the configured cap, in
/// every state a solve can reach.
pub proof fn lemma_iteration_cap(c: PcgControl)
    requires
        c.wf(),
    ensures
        c.iter <= c.max_iter,
{
}

/// With a positive iteration cap, a finished solve reports zero
/// iterations only when the initial guess already met the tolerance:
/// breakdown counts its begun iteration, and exhaustion with a positive
/// cap counts them all.
pub proof fn lemma_zero_iterations_is_early_exit(c: PcgControl)
    requires
        c.wf(),
        c.phase is Done,
        c.iter == 0,
        c.max_iter >= 1,
    ensures
        c.phase == Phase::Done(Outcome::Converged),
{
}

} // verus!
