//! Running a plan: the dispatcher names the next action, the caller performs
//! it and reports whether it succeeded. A failure stops nothing.

use vstd::prelude::*;
use crate::plan::ActionKind;

verus! {

/// What became of one action of a run.
#[derive(Clone, Copy, Debug, PartialEq, Eq, Structural)]
pub struct ActionOutcome {
    pub kind: ActionKind,
    pub succeeded: bool,
}

/// The action to perform once `done` actions of the plan have finished.
pub open spec fn next_kind(plan: Seq<ActionKind>, done: nat) -> Option<ActionKind> {
    if done < plan.len() {
        Some(plan[done as int])
    } else {
        None
    }
}

/// The outcomes after the action that was due has finished. Once the plan is
/// through, nothing more is recorded.
pub open spec fn recorded(
    plan: Seq<ActionKind>,
    outcomes: Seq<ActionOutcome>,
    succeeded: bool,
) -> Seq<ActionOutcome> {
    match next_kind(plan, outcomes.len()) {
        Some(kind) => outcomes.push(ActionOutcome { kind, succeeded }),
        None => outcomes,
    }
}

/// The outcomes after the first `n` of `results` have been recorded, one
/// after the other, in a run that starts with none.
pub open spec fn outcomes_after(plan: Seq<ActionKind>, results: Seq<bool>, n: nat) -> Seq<
    ActionOutcome,
>
    decreases n,
{
    if n == 0 {
        Seq::empty()
    } else {
        recorded(plan, outcomes_after(plan, results, (n - 1) as nat), results[n - 1])
    }
}

/// Steps through a plan, one action at a time.
#[derive(Debug)]
pub struct ActionDispatcher {
    plan: Vec<ActionKind>,
    outcomes: Vec<ActionOutcome>,
}

impl ActionDispatcher {
    /// The plan that every run goes through.
    pub closed spec fn plan(&self) -> Seq<ActionKind> {
        self.plan@
    }

    /// The outcomes of the current run so far.
    pub closed spec fn reported(&self) -> Seq<ActionOutcome> {
        self.outcomes@
    }

    /// A dispatcher at the start of a run of `plan`.
    pub fn new(plan: Vec<ActionKind>) -> (dispatcher: ActionDispatcher)
        ensures
            dispatcher.plan() == plan@,
            dispatcher.reported() == Seq::<ActionOutcome>::empty(),
    {
        ActionDispatcher { plan, outcomes: Vec::new() }
    }

    /// Starts a new run: the outcomes of the last one are forgotten.
    pub fn restart(&mut self)
        ensures
            final(self).plan() == old(self).plan(),
            final(self).reported() == Seq::<ActionOutcome>::empty(),
    {
        self.outcomes = Vec::new();
    }

    /// The action to perform now, or `None` once the run is through.
    pub fn next_action(&self) -> (next: Option<ActionKind>)
        ensures
            next == next_kind(self.plan(), self.reported().len()),
    {
        if self.outcomes.len() < self.plan.len() {
            Some(self.plan[self.outcomes.len()])
        } else {
            None
        }
    }

    /// Records whether the action named by `next_action` succeeded. Either
    /// way the run goes on with the action after it.
    pub fn record(&mut self, succeeded: bool)
        ensures
            final(self).plan() == old(self).plan(),
            final(self).reported() == recorded(old(self).plan(), old(self).reported(), succeeded),
    {
        if self.outcomes.len() < self.plan.len() {
            let kind = self.plan[self.outcomes.len()];
            self.outcomes.push(ActionOutcome { kind, succeeded });
        }
    }

    /// Whether every action of the plan has finished.
    pub fn is_finished(&self) -> (finished: bool)
        ensures
            finished == (next_kind(self.plan(), self.reported().len()) is None),
    {
        self.outcomes.len() >= self.plan.len()
    }

    /// The outcomes of the current run so far, in the order of the plan.
    pub fn outcomes(&self) -> (outcomes: &Vec<ActionOutcome>)
        ensures
            outcomes@ == self.reported(),
    {
        &self.outcomes
    }
}

/// Whatever the results are, the actions of a plan are performed in the
/// plan's order and each result is reported under its own action: after `n`
/// results the outcomes name the first `n` actions, the outcome of each
/// action holds the result of that action alone, and the next action is the
/// one in place `n`.
pub proof fn law_dispatch_independent(plan: Seq<ActionKind>, results: Seq<bool>, n: nat)
    requires
        n <= plan.len(),
        n <= results.len(),
    ensures
        outcomes_after(plan, results, n).len() == n,
        forall|i: int|
            0 <= i < n ==> #[trigger] outcomes_after(plan, results, n)[i] == (ActionOutcome {
                kind: plan[i],
                succeeded: results[i],
            }),
        next_kind(plan, outcomes_after(plan, results, n).len()) == next_kind(plan, n),
    decreases n,
{
    if n > 0 {
        law_dispatch_independent(plan, results, (n - 1) as nat);
    }
}

} // verus!
