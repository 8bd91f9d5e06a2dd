//! Iteration policies for the two root-finding loops.
//!
//! Each solve call runs a short, bounded iteration: Newton-Raphson on the
//! universal variable for a direct transfer, a step-limited Newton-type
//! update on the dimensionless variable for a multi-revolution transfer.
//! The arithmetic of each pass — Stumpff functions, the time-of-flight
//! residual, the derivative — is floating point and lives with the caller;
//! what is decided from each pass's outcome is fixed here: when the loop has
//! converged, when it must adjust course, and when its budget is exhausted.
//! A controller never lets a loop run past its budget, and an exhausted
//! budget is reported as a convergence failure, never papered over with the
//! unconverged estimate.

use vstd::prelude::*;

use crate::errors::LambertError;
use crate::errors::SolverMethod;

verus! {

/// The single-revolution loop gives up after this many passes.
pub const SINGLE_REV_ITERATION_BUDGET: u32 = 100;

/// A negligible Newton step only counts as convergence (an oscillation
/// guard) after this many passes of the single-revolution loop.
pub const SINGLE_REV_OSCILLATION_MIN_ITER: u32 = 10;

/// The multi-revolution loop gives up after this many passes.
pub const MULTI_REV_ITERATION_BUDGET: u32 = 50;

/// Where an iteration stands after some number of passes.
#[derive(Debug, Clone, Copy, PartialEq, Eq, Structural)]
pub enum IterationStatus {
    /// The loop may take another pass.
    Running,
    /// The time-of-flight tolerance was met; the current iterate is the answer.
    Converged,
    /// The derivative vanished, so no further update is possible.
    Stalled,
    /// The iteration budget ran out without convergence.
    Exhausted,
}

/// What one pass of the single-revolution loop observed, all floating-point
/// comparisons already decided by the caller.
#[derive(Debug, Clone, Copy, PartialEq, Eq, Structural)]
pub enum SingleRevObservation {
    /// The auxiliary quantity y(z) came out non-positive: this z searches an
    /// infeasible branch.
    NegativeY,
    /// The computed time of flight matches the target within tolerance.
    WithinTolerance,
    /// A Newton step was computed; `negligible` reports whether the change
    /// in z is below the oscillation threshold.
    Step { negligible: bool },
}

/// What the single-revolution loop must do with its iterate next.
#[derive(Debug, Clone, Copy, PartialEq, Eq, Structural)]
pub enum SingleRevAction {
    /// Nudge z upward and try again: the current branch is infeasible.
    RaiseZ,
    /// Stop and reconstruct the solution from the current iterate.
    Accept,
    /// Replace z with the computed Newton iterate.
    ApplyStep,
}

/// The action the single-revolution policy takes on an observation, given
/// how many passes came before it.
pub open spec fn single_rev_action(
    iterations_before: u32,
    obs: SingleRevObservation,
) -> SingleRevAction {
    match obs {
        SingleRevObservation::NegativeY => SingleRevAction::RaiseZ,
        SingleRevObservation::WithinTolerance => SingleRevAction::Accept,
        SingleRevObservation::Step { negligible } => if negligible && iterations_before
            > SINGLE_REV_OSCILLATION_MIN_ITER {
            // A stagnant update this late is an oscillation around the root:
            // accept the iterate rather than bounce forever.
            SingleRevAction::Accept
        } else {
            SingleRevAction::ApplyStep
        },
    }
}

/// Whether an observation ends the single-revolution loop in convergence.
pub open spec fn single_rev_converges(iterations_before: u32, obs: SingleRevObservation) -> bool {
    single_rev_action(iterations_before, obs) is Accept
}

/// The controller state one pass later: the pass is counted, and the status
/// records convergence, budget exhaustion, or that the loop goes on.
pub open spec fn single_rev_next(
    s: SingleRevIteration,
    obs: SingleRevObservation,
) -> SingleRevIteration {
    let taken = (s.iterations + 1) as u32;
    SingleRevIteration {
        iterations: taken,
        status: if single_rev_converges(s.iterations, obs) {
            IterationStatus::Converged
        } else if taken == SINGLE_REV_ITERATION_BUDGET {
            IterationStatus::Exhausted
        } else {
            IterationStatus::Running
        },
    }
}

/// The controller state after a fresh start and a sequence of observations,
/// one per pass; once the controller leaves `Running`, further observations
/// change nothing (the loop has ended).
pub open spec fn single_rev_run(obs: Seq<SingleRevObservation>) -> SingleRevIteration
    decreases obs.len(),
{
    if obs.len() == 0 {
        SingleRevIteration { iterations: 0, status: IterationStatus::Running }
    } else {
        let prev = single_rev_run(obs.drop_last());
        if prev.status is Running {
            single_rev_next(prev, obs.last())
        } else {
            prev
        }
    }
}

/// The iteration controller for the universal-variable (single-revolution)
/// solver: it counts passes, decides each pass's action, and closes the loop
/// on convergence or on budget exhaustion.
#[derive(Debug, Clone, Copy, PartialEq, Eq, Structural)]
pub struct SingleRevIteration {
    /// Passes taken so far.
    pub iterations: u32,
    /// Where the iteration stands.
    pub status: IterationStatus,
}

impl SingleRevIteration {
    /// The controller never leaves this set of states: the pass count stays
    /// within budget, a running loop has budget left, an exhausted one has
    /// none, and this loop never stalls.
    pub open spec fn wf(self) -> bool {
        &&& self.iterations <= SINGLE_REV_ITERATION_BUDGET
        &&& self.status is Running ==> self.iterations < SINGLE_REV_ITERATION_BUDGET
        &&& self.status is Exhausted ==> self.iterations == SINGLE_REV_ITERATION_BUDGET
        &&& !(self.status is Stalled)
    }

    /// A fresh controller: no passes taken, ready to run.
    pub fn start() -> (s: Self)
        ensures
            s.wf(),
            s.iterations == 0,
            s.status is Running,
    {
        SingleRevIteration { iterations: 0, status: IterationStatus::Running }
    }

    /// Feeds one pass's observation to the policy. Returns the action for
    /// this pass; the controller's status then says whether the loop goes on.
    pub fn on_observation(&mut self, obs: SingleRevObservation) -> (a: SingleRevAction)
        requires
            old(self).wf(),
            old(self).status is Running,
        ensures
            final(self).wf(),
            a == single_rev_action(old(self).iterations, obs),
            *final(self) == single_rev_next(*old(self), obs),
            final(self).iterations == old(self).iterations + 1,
    {
        let a = match obs {
            SingleRevObservation::NegativeY => SingleRevAction::RaiseZ,
            SingleRevObservation::WithinTolerance => SingleRevAction::Accept,
            SingleRevObservation::Step { negligible } => if negligible && self.iterations
                > SINGLE_REV_OSCILLATION_MIN_ITER {
                SingleRevAction::Accept
            } else {
                SingleRevAction::ApplyStep
            },
        };
        self.iterations = self.iterations + 1;
        self.status = if matches!(a, SingleRevAction::Accept) {
            IterationStatus::Converged
        } else if self.iterations == SINGLE_REV_ITERATION_BUDGET {
            IterationStatus::Exhausted
        } else {
            IterationStatus::Running
        };
        a
    }

    /// The error an exhausted run reports: a convergence failure naming the
    /// method and its full budget, never a partial result.
    pub fn failure_error(&self) -> (e: LambertError)
        requires
            self.status is Exhausted,
        ensures
            e == (LambertError::ConvergenceFailure {
                method: SolverMethod::UniversalVariable,
                iterations: SINGLE_REV_ITERATION_BUDGET,
            }),
    {
        LambertError::ConvergenceFailure {
            method: SolverMethod::UniversalVariable,
            iterations: SINGLE_REV_ITERATION_BUDGET,
        }
    }
}

/// Law: every run of the single-revolution controller stays well formed, and
/// while it is still running it has consumed exactly one pass per
/// observation.
pub proof fn lemma_single_rev_run_wf(obs: Seq<SingleRevObservation>)
    ensures
        single_rev_run(obs).wf(),
        single_rev_run(obs).status is Running ==> single_rev_run(obs).iterations == obs.len(),
    decreases obs.len(),
{
    if obs.len() > 0 {
        lemma_single_rev_run_wf(obs.drop_last());
    }
}

/// Law: the single-revolution iteration budget is a hard bound — whatever
/// the floating-point passes report, after the budget's worth of
/// observations the loop has ended, converged or exhausted.
pub proof fn lemma_single_rev_budget_is_hard(obs: Seq<SingleRevObservation>)
    requires
        obs.len() >= SINGLE_REV_ITERATION_BUDGET,
    ensures
        !(single_rev_run(obs).status is Running),
{
    lemma_single_rev_run_wf(obs);
}

/// What one pass of the multi-revolution loop observed, all floating-point
/// comparisons already decided by the caller.
#[derive(Debug, Clone, Copy, PartialEq, Eq, Structural)]
pub enum MultiRevObservation {
    /// The dimensionless time at the iterate matches the target within
    /// tolerance.
    WithinTolerance,
    /// The derivative of the time function is too small to divide by.
    DerivativeVanished,
    /// A Newton step was computed; `exceeds_limit` reports whether its size
    /// is above the per-pass maximum.
    Step { exceeds_limit: bool },
}

/// What the multi-revolution loop must do with its iterate next.
#[derive(Debug, Clone, Copy, PartialEq, Eq, Structural)]
pub enum MultiRevAction {
    /// Stop and reconstruct the solution from the current iterate.
    Accept,
    /// Stop without a solution: no further update is possible.
    Abort,
    /// Apply the full Newton step, then clamp the iterate to its range.
    ApplyStep,
    /// Apply the step truncated to the per-pass maximum, then clamp.
    ApplyLimitedStep,
}

/// The action the multi-revolution policy takes on an observation. The step
/// limit suppresses oscillation: an oversized update is truncated, never
/// applied whole.
pub open spec fn multi_rev_action(obs: MultiRevObservation) -> MultiRevAction {
    match obs {
        MultiRevObservation::WithinTolerance => MultiRevAction::Accept,
        MultiRevObservation::DerivativeVanished => MultiRevAction::Abort,
        MultiRevObservation::Step { exceeds_limit } => if exceeds_limit {
            MultiRevAction::ApplyLimitedStep
        } else {
            MultiRevAction::ApplyStep
        },
    }
}

/// The controller state one pass later: the pass is counted, and the status
/// records convergence, a stall, budget exhaustion, or that the loop goes on.
pub open spec fn multi_rev_next(
    s: MultiRevIteration,
    obs: MultiRevObservation,
) -> MultiRevIteration {
    let taken = (s.iterations + 1) as u32;
    MultiRevIteration {
        iterations: taken,
        status: if multi_rev_action(obs) is Accept {
            IterationStatus::Converged
        } else if multi_rev_action(obs) is Abort {
            IterationStatus::Stalled
        } else if taken == MULTI_REV_ITERATION_BUDGET {
            IterationStatus::Exhausted
        } else {
            IterationStatus::Running
        },
    }
}

/// The controller state after a fresh start and a sequence of observations,
/// one per pass; once the controller leaves `Running`, further observations
/// change nothing (the loop has ended).
pub open spec fn multi_rev_run(obs: Seq<MultiRevObservation>) -> MultiRevIteration
    decreases obs.len(),
{
    if obs.len() == 0 {
        MultiRevIteration { iterations: 0, status: IterationStatus::Running }
    } else {
        let prev = multi_rev_run(obs.drop_last());
        if prev.status is Running {
            multi_rev_next(prev, obs.last())
        } else {
            prev
        }
    }
}

/// The iteration controller for the multi-revolution solver.
#[derive(Debug, Clone, Copy, PartialEq, Eq, Structural)]
pub struct MultiRevIteration {
    /// Passes taken so far.
    pub iterations: u32,
    /// Where the iteration stands.
    pub status: IterationStatus,
}

impl MultiRevIteration {
    /// The controller never leaves this set of states: the pass count stays
    /// within budget, a running loop has budget left, an exhausted one has
    /// none.
    pub open spec fn wf(self) -> bool {
        &&& self.iterations <= MULTI_REV_ITERATION_BUDGET
        &&& self.status is Running ==> self.iterations < MULTI_REV_ITERATION_BUDGET
        &&& self.status is Exhausted ==> self.iterations == MULTI_REV_ITERATION_BUDGET
    }

    /// A fresh controller: no passes taken, ready to run.
    pub fn start() -> (s: Self)
        ensures
            s.wf(),
            s.iterations == 0,
            s.status is Running,
    {
        MultiRevIteration { iterations: 0, status: IterationStatus::Running }
    }

    /// Feeds one pass's observation to the policy. Returns the action for
    /// this pass; the controller's status then says whether the loop goes on.
    pub fn on_observation(&mut self, obs: MultiRevObservation) -> (a: MultiRevAction)
        requires
            old(self).wf(),
            old(self).status is Running,
        ensures
            final(self).wf(),
            a == multi_rev_action(obs),
            *final(self) == multi_rev_next(*old(self), obs),
            final(self).iterations == old(self).iterations + 1,
    {
        let a = match obs {
            MultiRevObservation::WithinTolerance => MultiRevAction::Accept,
            MultiRevObservation::DerivativeVanished => MultiRevAction::Abort,
            MultiRevObservation::Step { exceeds_limit } => if exceeds_limit {
                MultiRevAction::ApplyLimitedStep
            } else {
                MultiRevAction::ApplyStep
            },
        };
        self.iterations = self.iterations + 1;
        self.status = if matches!(a, MultiRevAction::Accept) {
            IterationStatus::Converged
        } else if matches!(a, MultiRevAction::Abort) {
            IterationStatus::Stalled
        } else if self.iterations == MULTI_REV_ITERATION_BUDGET {
            IterationStatus::Exhausted
        } else {
            IterationStatus::Running
        };
        a
    }

    /// The error an unconverged run reports — stalled or out of budget: a
    /// convergence failure naming the method and its full budget, never a
    /// partial result.
    pub fn failure_error(&self) -> (e: LambertError)
        requires
            self.status is Stalled || self.status is Exhausted,
        ensures
            e == (LambertError::ConvergenceFailure {
                method: SolverMethod::MultiRevolution,
                iterations: MULTI_REV_ITERATION_BUDGET,
            }),
    {
        LambertError::ConvergenceFailure {
            method: SolverMethod::MultiRevolution,
            iterations: MULTI_REV_ITERATION_BUDGET,
        }
    }
}

/// Law: every run of the multi-revolution controller stays well formed, and
/// while it is still running it has consumed exactly one pass per
/// observation.
pub proof fn lemma_multi_rev_run_wf(obs: Seq<MultiRevObservation>)
    ensures
        multi_rev_run(obs).wf(),
        multi_rev_run(obs).status is Running ==> multi_rev_run(obs).iterations == obs.len(),
    decreases obs.len(),
{
    if obs.len() > 0 {
        lemma_multi_rev_run_wf(obs.drop_last());
    }
}

/// Law: the multi-revolution iteration budget is a hard bound — whatever the
/// floating-point passes report, after the budget's worth of observations
/// the loop has ended: converged, stalled or exhausted.
pub proof fn lemma_multi_rev_budget_is_hard(obs: Seq<MultiRevObservation>)
    requires
        obs.len() >= MULTI_REV_ITERATION_BUDGET,
    ensures
        !(multi_rev_run(obs).status is Running),
{
    lemma_multi_rev_run_wf(obs);
}

} // verus!
