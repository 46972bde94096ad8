//! Carrying out a plan: the steps are handed out one at a time, each after
//! the one before it has succeeded, and none after one has failed.
//!
//! The library performs no step itself. Whoever does asks for the next step,
//! performs it and reports how it went.

use vstd::prelude::*;
use crate::step::{plan_view, Step, StepView};

verus! {

/// How far a run has come.
pub struct RunView {
    /// The steps of the plan.
    pub steps: Seq<StepView>,
    /// How many of them have succeeded.
    pub done: nat,
    /// Whether the step after those has failed.
    pub failed: bool,
}

impl RunView {
    /// A run of `steps` of which none is performed yet.
    pub open spec fn start(steps: Seq<StepView>) -> RunView {
        RunView { steps, done: 0, failed: false }
    }

    /// No more steps count as done than there are, and a step that has failed
    /// is one of the plan.
    pub open spec fn wf(self) -> bool {
        self.done <= self.steps.len() && (self.failed ==> self.done < self.steps.len())
    }

    /// The step to perform next: none once a step has failed, and none when
    /// all have succeeded.
    pub open spec fn pending(self) -> Option<StepView> {
        if !self.failed && self.done < self.steps.len() {
            Some(self.steps[self.done as int])
        } else {
            None
        }
    }

    /// The run after the pending step has succeeded or failed. Where no step
    /// is pending, a report changes nothing.
    pub open spec fn report(self, success: bool) -> RunView {
        if self.pending() is None {
            self
        } else if success {
            RunView { done: self.done + 1, ..self }
        } else {
            RunView { failed: true, ..self }
        }
    }

    /// The run after the outcomes of `outcomes` are reported, one by one.
    pub open spec fn replay(self, outcomes: Seq<bool>) -> RunView
        decreases outcomes.len(),
    {
        if outcomes.len() == 0 {
            self
        } else {
            self.report(outcomes[0]).replay(outcomes.drop_first())
        }
    }

    /// The steps that are performed while the outcomes of `outcomes` are
    /// reported: each is the step that was pending when its outcome came in.
    pub open spec fn performed(self, outcomes: Seq<bool>) -> Seq<StepView>
        decreases outcomes.len(),
    {
        if outcomes.len() == 0 {
            Seq::empty()
        } else {
            match self.pending() {
                None => Seq::empty(),
                Some(step) => seq![step] + self.report(outcomes[0]).performed(
                    outcomes.drop_first(),
                ),
            }
        }
    }
}

/// Once a step has failed, or all have succeeded, the run stays as it is and
/// hands out no step, whatever is reported to it.
pub proof fn lemma_stopped_run_stays(run: RunView, outcomes: Seq<bool>)
    requires
        run.pending() is None,
    ensures
        run.replay(outcomes) == run,
        run.replay(outcomes).pending() is None,
        run.performed(outcomes) == Seq::<StepView>::empty(),
    decreases outcomes.len(),
{
    if outcomes.len() > 0 {
        lemma_stopped_run_stays(run, outcomes.drop_first());
    }
}

/// A step that fails is the last one performed. Where the first `count`
/// outcomes are successes and the next one is a failure, the steps performed
/// are the pending one and the `count` after it, and no step is pending any
/// more, however many outcomes follow.
pub proof fn lemma_failure_ends_run(run: RunView, outcomes: Seq<bool>, count: int)
    requires
        run.wf(),
        !run.failed,
        0 <= count < outcomes.len(),
        run.done + count < run.steps.len(),
        forall|j: int| 0 <= j < count ==> outcomes[j],
        !outcomes[count],
    ensures
        run.performed(outcomes) == run.steps.subrange(run.done as int, run.done + count + 1),
        run.replay(outcomes).pending() is None,
        run.replay(outcomes).failed,
        run.replay(outcomes).done == run.done + count,
    decreases count,
{
    let rest = outcomes.drop_first();
    let next = run.report(outcomes[0]);
    if count == 0 {
        lemma_stopped_run_stays(next, rest);
        assert(seq![run.steps[run.done as int]] + Seq::<StepView>::empty()
            =~= run.steps.subrange(run.done as int, run.done as int + 1));
    } else {
        assert(outcomes[0]);
        assert forall|j: int| 0 <= j < count - 1 implies rest[j] by {
            assert(rest[j] == outcomes[j + 1]);
        }
        assert(rest[count - 1] == outcomes[count]);
        lemma_failure_ends_run(next, rest, count - 1);
        assert(seq![run.steps[run.done as int]] + next.steps.subrange(
            next.done as int,
            next.done + count,
        ) =~= run.steps.subrange(run.done as int, run.done + count + 1));
    }
}

/// While every step succeeds, the steps are performed in the order of the
/// plan, one for each outcome, until none is left.
pub proof fn lemma_success_follows_plan(run: RunView, outcomes: Seq<bool>)
    requires
        run.wf(),
        !run.failed,
        run.done + outcomes.len() <= run.steps.len(),
        forall|j: int| 0 <= j < outcomes.len() ==> outcomes[j],
    ensures
        run.performed(outcomes) == run.steps.subrange(
            run.done as int,
            run.done as int + outcomes.len(),
        ),
        run.replay(outcomes) == (RunView { done: run.done + outcomes.len(), ..run }),
    decreases outcomes.len(),
{
    if outcomes.len() == 0 {
        assert(run.steps.subrange(run.done as int, run.done as int) =~= Seq::empty());
    } else {
        let rest = outcomes.drop_first();
        let next = run.report(outcomes[0]);
        assert(outcomes[0]);
        assert forall|j: int| 0 <= j < rest.len() implies rest[j] by {
            assert(rest[j] == outcomes[j + 1]);
        }
        lemma_success_follows_plan(next, rest);
        assert(seq![run.steps[run.done as int]] + next.steps.subrange(
            next.done as int,
            next.done as int + rest.len(),
        ) =~= run.steps.subrange(run.done as int, run.done as int + outcomes.len()));
    }
}

/// Where a run stands.
#[derive(Debug, Clone, Copy, PartialEq, Eq, Structural)]
pub enum Status {
    /// A step is pending.
    Running,
    /// Every step has succeeded.
    Finished,
    /// A step has failed, and the run is over.
    Aborted,
}

/// A plan that is being carried out.
#[derive(Debug)]
pub struct Run {
    steps: Vec<Step>,
    done: usize,
    failed: bool,
}

impl View for Run {
    type V = RunView;

    closed spec fn view(&self) -> RunView {
        RunView { steps: plan_view(self.steps@), done: self.done as nat, failed: self.failed }
    }
}

impl Run {
    #[verifier::type_invariant]
    spec fn inv(self) -> bool {
        self.done <= self.steps@.len() && (self.failed ==> self.done < self.steps@.len())
    }

    /// A run of `steps`, of which none is performed yet.
    pub fn new(steps: Vec<Step>) -> (run: Run)
        ensures
            run@ == RunView::start(plan_view(steps@)),
            run@.wf(),
    {
        Run { steps, done: 0, failed: false }
    }

    /// The step to perform next, if the run goes on.
    pub fn next(&self) -> (step: Option<&Step>)
        ensures
            self@.pending() is Some ==> step is Some && step->Some_0@ == self@.pending()->Some_0,
            self@.pending() is None ==> step is None,
            self@.wf(),
    {
        proof {
            use_type_invariant(self);
        }
        if !self.failed && self.done < self.steps.len() {
            Some(&self.steps[self.done])
        } else {
            None
        }
    }

    /// Takes note of how the pending step went. After a failure no step is
    /// handed out any more. Where no step is pending, nothing changes.
    pub fn report(&mut self, success: bool)
        ensures
            final(self)@ == old(self)@.report(success),
            old(self)@.wf(),
            final(self)@.wf(),
    {
        proof {
            use_type_invariant(&*self);
        }
        if !self.failed && self.done < self.steps.len() {
            if success {
                self.done = self.done + 1;
            } else {
                self.failed = true;
            }
        }
    }

    /// Where the run stands.
    pub fn status(&self) -> (status: Status)
        ensures
            status == Status::Aborted <==> self@.failed,
            status == Status::Running <==> self@.pending() is Some,
            status == Status::Finished <==> !self@.failed && self@.done == self@.steps.len(),
    {
        proof {
            use_type_invariant(self);
        }
        if self.failed {
            Status::Aborted
        } else if self.done < self.steps.len() {
            Status::Running
        } else {
            Status::Finished
        }
    }

    /// The step that failed, if one did.
    pub fn failure(&self) -> (step: Option<&Step>)
        ensures
            self@.failed ==> step is Some && step->Some_0@ == self@.steps[self@.done as int],
            !self@.failed ==> step is None,
    {
        proof {
            use_type_invariant(self);
        }
        if self.failed {
            Some(&self.steps[self.done])
        } else {
            None
        }
    }
}

} // verus!
