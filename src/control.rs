use vstd::prelude::*;

verus! {

/// Where a registration run stands.
#[derive(Debug, Clone, Copy, PartialEq, Eq, Structural)]
pub enum Phase {
    /// The initial guess has not been applied to the movable scan yet.
    Initialized,
    /// Incremental transforms are being estimated and applied.
    Iterating,
    /// The last increment fell under both thresholds.
    Converged,
    /// The iteration budget is spent.
    MaxIterationsReached,
    /// The convergence ratio has been computed; the result can be emitted.
    /// `converged` tells whether the loop stopped before its budget was spent.
    Done { converged: bool },
}

/// What the caller has to do next.
#[derive(Debug, Clone, Copy, PartialEq, Eq, Structural)]
pub enum Action {
    /// Translate, then rotate the movable scan by the initial guess.
    ApplyGuess,
    /// Estimate one incremental transform and apply it to the movable scan.
    Estimate,
    /// Count the movable points that lie close to their nearest reference point.
    Finalize,
    /// Nothing is left to do.
    Finished,
}

/// The decisions of the registration loop: when to estimate again and when to stop.
#[derive(Debug, Clone, Copy, PartialEq, Eq, Structural)]
pub struct IterationControl {
    pub max_iterations: usize,
    pub completed: usize,
    pub phase: Phase,
}

/// The iteration budget of the default settings.
pub const DEFAULT_MAX_ITERATIONS: usize = 50;

/// The action that a state asks for.
pub open spec fn action_of(phase: Phase) -> Action {
    match phase {
        Phase::Initialized => Action::ApplyGuess,
        Phase::Iterating => Action::Estimate,
        Phase::Converged => Action::Finalize,
        Phase::MaxIterationsReached => Action::Finalize,
        Phase::Done { .. } => Action::Finished,
    }
}

impl IterationControl {
    /// No more iterations than the budget; while iterating, at least one is left;
    /// the budget is spent exactly when it is reported so.
    pub open spec fn wf(&self) -> bool {
        &&& self.completed <= self.max_iterations
        &&& self.phase == Phase::Initialized ==> self.completed == 0
        &&& self.phase == Phase::Iterating ==> self.completed < self.max_iterations
        &&& self.phase == Phase::MaxIterationsReached ==> self.completed == self.max_iterations
        &&& self.phase == Phase::Converged ==> self.completed >= 1
    }

    /// The state after the initial guess was applied.
    pub open spec fn spec_guess_applied(self) -> IterationControl {
        IterationControl {
            phase: if self.max_iterations == 0 {
                Phase::MaxIterationsReached
            } else {
                Phase::Iterating
            },
            ..self
        }
    }

    /// The state after one increment was applied; `small` tells whether both its
    /// translation norm and its rotation were under their thresholds.
    pub open spec fn spec_increment_applied(self, small: bool) -> IterationControl {
        IterationControl {
            completed: (self.completed + 1) as usize,
            phase: if small {
                Phase::Converged
            } else if self.completed + 1 == self.max_iterations {
                Phase::MaxIterationsReached
            } else {
                Phase::Iterating
            },
            ..self
        }
    }

    /// A run that will estimate at most `max_iterations` increments.
    pub fn new(max_iterations: usize) -> (r: IterationControl)
        ensures
            r.wf(),
            r.max_iterations == max_iterations,
            r.completed == 0,
            r.phase == Phase::Initialized,
    {
        IterationControl { max_iterations, completed: 0, phase: Phase::Initialized }
    }

    /// A run with the default budget.
    pub fn new_default() -> (r: IterationControl)
        ensures
            r.wf(),
            r.max_iterations == DEFAULT_MAX_ITERATIONS,
            r.completed == 0,
            r.phase == Phase::Initialized,
    {
        IterationControl::new(DEFAULT_MAX_ITERATIONS)
    }

    /// What the caller has to do next.
    pub fn next_action(&self) -> (r: Action)
        ensures
            r == action_of(self.phase),
    {
        match self.phase {
            Phase::Initialized => Action::ApplyGuess,
            Phase::Iterating => Action::Estimate,
            Phase::Converged => Action::Finalize,
            Phase::MaxIterationsReached => Action::Finalize,
            Phase::Done { .. } => Action::Finished,
        }
    }

    /// Records that the initial guess was applied.
    pub fn guess_applied(&mut self)
        requires
            old(self).wf(),
            old(self).phase == Phase::Initialized,
        ensures
            *final(self) == old(self).spec_guess_applied(),
            final(self).wf(),
    {
        if self.max_iterations == 0 {
            self.phase = Phase::MaxIterationsReached;
        } else {
            self.phase = Phase::Iterating;
        }
    }

    /// Records that one increment was applied. The run stops early when
    /// `translation_small` (its norm was under the distance threshold) and
    /// `rotation_small` (its magnitude was under the rotation threshold) both hold.
    pub fn increment_applied(&mut self, translation_small: bool, rotation_small: bool)
        requires
            old(self).wf(),
            old(self).phase == Phase::Iterating,
        ensures
            *final(self) == old(self).spec_increment_applied(translation_small && rotation_small),
            final(self).wf(),
    {
        self.completed = self.completed + 1;
        if translation_small && rotation_small {
            self.phase = Phase::Converged;
        } else if self.completed == self.max_iterations {
            self.phase = Phase::MaxIterationsReached;
        }
    }

    /// Records that the convergence ratio was computed.
    pub fn finalized(&mut self)
        requires
            old(self).wf(),
            old(self).phase == Phase::Converged || old(self).phase
                == Phase::MaxIterationsReached,
        ensures
            *final(self) == (IterationControl {
                phase: Phase::Done { converged: old(self).phase == Phase::Converged },
                ..*old(self)
            }),
            final(self).wf(),
    {
        let converged = match self.phase {
            Phase::Converged => true,
            _ => false,
        };
        self.phase = Phase::Done { converged };
    }

    /// How many increments were estimated so far.
    pub fn iterations(&self) -> (r: usize)
        ensures
            r == self.completed,
    {
        self.completed
    }

    /// Whether the run stopped because an increment fell under both thresholds.
    pub fn converged_early(&self) -> (r: bool)
        ensures
            r == (self.phase == Phase::Converged || self.phase == Phase::Done { converged: true }),
    {
        match self.phase {
            Phase::Converged => true,
            Phase::Done { converged } => converged,
            _ => false,
        }
    }
}

/// Once an increment falls under both thresholds, no further increment is
/// estimated: the next action is to finalize, whatever budget is left.
pub proof fn lemma_early_stop(c: IterationControl)
    requires
        c.wf(),
        c.phase == Phase::Iterating,
    ensures
        action_of(c.spec_increment_applied(true).phase) == Action::Finalize,
        c.spec_increment_applied(true).completed == c.completed + 1,
        c.spec_increment_applied(true).completed <= c.max_iterations,
{
}

/// The budget is a ceiling: every state the run reaches has estimated at most
/// `max_iterations` increments, and a run that is still iterating has one left.
pub proof fn lemma_budget_is_ceiling(c: IterationControl, small: bool)
    requires
        c.wf(),
        c.phase == Phase::Iterating,
    ensures
        c.spec_increment_applied(small).wf(),
        c.spec_increment_applied(small).completed <= c.max_iterations,
        c.spec_increment_applied(small).phase == Phase::Iterating ==> c.spec_increment_applied(
            small,
        ).completed < c.max_iterations,
{
}

} // verus!
