//! The join phase of a supervisor: tasks launched in registration order are
//! awaited in that order, and the first failure ends the run at once, leaving
//! the tasks not yet joined running on their own.
use vstd::prelude::*;

verus! {

/// How a joined task ended.
#[derive(Debug)]
pub enum JoinOutcome<F, C> {
    /// Its routine returned success.
    Completed,
    /// Its routine returned this failure.
    Failed(F),
    /// The task itself ended abnormally, for this reason.
    Crashed(C),
}

/// The failure of a whole run.
#[derive(Debug)]
pub enum Failure<F, C> {
    /// A task ended abnormally rather than through its routine's result.
    TaskExecution(C),
    /// A routine reported a failure of its own.
    Routine(F),
}

/// What the supervisor does next.
#[derive(Debug)]
pub enum JoinStep<F, C> {
    /// Wait for the task launched at this index.
    Await(usize),
    /// The run is over, with this result.
    Finish(Result<(), Failure<F, C>>),
}

/// The result of a run whose tasks, joined in registration order, ended as
/// `outcomes` say: the first task that did not complete decides it.
pub open spec fn verdict<F, C>(outcomes: Seq<JoinOutcome<F, C>>) -> Result<(), Failure<F, C>>
    decreases outcomes.len(),
{
    if outcomes.len() == 0 {
        Ok(())
    } else {
        match outcomes[0] {
            JoinOutcome::Completed => verdict(outcomes.drop_first()),
            JoinOutcome::Failed(f) => Err(Failure::Routine(f)),
            JoinOutcome::Crashed(c) => Err(Failure::TaskExecution(c)),
        }
    }
}

/// Every outcome is a completion.
pub open spec fn all_completed<F, C>(outcomes: Seq<JoinOutcome<F, C>>) -> bool {
    forall|i: int| 0 <= i < outcomes.len() ==> outcomes[i] is Completed
}

/// The join loop's state: how many tasks were launched, and the outcomes of
/// those joined so far.
pub struct JoinCursor<F, C> {
    next: usize,
    total: usize,
    joined: Ghost<Seq<JoinOutcome<F, C>>>,
}

impl<F, C> JoinCursor<F, C> {
    /// Number of launched tasks.
    pub closed spec fn total(self) -> nat {
        self.total as nat
    }

    /// Outcomes of the tasks joined so far, in registration order.
    pub closed spec fn joined(self) -> Seq<JoinOutcome<F, C>> {
        self.joined@
    }

    /// The position of the next task to join matches the outcomes recorded.
    pub closed spec fn in_step(self) -> bool {
        self.next as nat == self.joined@.len()
    }

    /// Every task joined so far completed, and no more were joined than
    /// launched.
    pub open spec fn wf(self) -> bool {
        &&& self.in_step()
        &&& self.joined().len() <= self.total()
        &&& all_completed(self.joined())
    }

    /// A cursor over `total` launched tasks, none joined yet.
    pub fn new(total: usize) -> (r: Self)
        ensures
            r.wf(),
            r.total() == total,
            r.joined() == Seq::<JoinOutcome<F, C>>::empty(),
    {
        JoinCursor { next: 0, total, joined: Ghost(Seq::empty()) }
    }

    /// The first step: wait for the first task, or finish at once when none
    /// was launched.
    pub fn start(&self) -> (r: JoinStep<F, C>)
        requires
            self.wf(),
        ensures
            self.joined().len() < self.total() ==> r == JoinStep::<F, C>::Await(
                self.joined().len() as usize,
            ),
            self.joined().len() == self.total() ==> r == JoinStep::<F, C>::Finish(Ok(())),
    {
        if self.next < self.total {
            JoinStep::Await(self.next)
        } else {
            JoinStep::Finish(Ok(()))
        }
    }

    /// Records how the awaited task ended and decides the next step: the
    /// next task in registration order after a completion, success once the
    /// last one completed, and the failure itself otherwise.
    pub fn on_joined(&mut self, outcome: JoinOutcome<F, C>) -> (r: JoinStep<F, C>)
        requires
            old(self).wf(),
            old(self).joined().len() < old(self).total(),
        ensures
            final(self).total() == old(self).total(),
            final(self).joined() == old(self).joined().push(outcome),
            outcome is Completed ==> final(self).wf(),
            r matches JoinStep::Await(i) ==> i == final(self).joined().len() && i < final(self).total(),
            outcome matches JoinOutcome::Failed(f) ==> r == JoinStep::<F, C>::Finish(Err(Failure::Routine(f))),
            outcome matches JoinOutcome::Crashed(c) ==> r == JoinStep::<F, C>::Finish(Err(Failure::TaskExecution(c))),
            r matches JoinStep::Finish(res) ==> res == verdict(final(self).joined()),
            r == JoinStep::<F, C>::Finish(Ok(())) ==> final(self).joined().len() == final(self).total(),
            (r is Await) <==> (outcome is Completed && final(self).joined().len() < final(self).total()),
    {
        let ghost joined = self.joined@.push(outcome);
        proof {
            lemma_verdict_after_completions(joined);
        }
        self.joined = Ghost(joined);
        self.next = self.next + 1;
        match outcome {
            JoinOutcome::Completed => {
                if self.next < self.total {
                    JoinStep::Await(self.next)
                } else {
                    JoinStep::Finish(Ok(()))
                }
            },
            JoinOutcome::Failed(f) => JoinStep::Finish(Err(Failure::Routine(f))),
            JoinOutcome::Crashed(c) => JoinStep::Finish(Err(Failure::TaskExecution(c))),
        }
    }
}

/// When all but the last of `outcomes` completed, the last one decides.
proof fn lemma_verdict_after_completions<F, C>(outcomes: Seq<JoinOutcome<F, C>>)
    requires
        outcomes.len() > 0,
        all_completed(outcomes.drop_last()),
    ensures
        verdict(outcomes) == match outcomes.last() {
            JoinOutcome::Completed => Ok(()),
            JoinOutcome::Failed(f) => Err(Failure::<F, C>::Routine(f)),
            JoinOutcome::Crashed(c) => Err(Failure::<F, C>::TaskExecution(c)),
        },
    decreases outcomes.len(),
{
    if outcomes.len() > 1 {
        assert(outcomes.drop_last()[0] == outcomes[0]);
        assert(outcomes.drop_first().drop_last() =~= outcomes.drop_last().drop_first());
        assert(outcomes[0] is Completed);
        assert(outcomes.drop_first().last() == outcomes.last());
        assert forall|i: int| 0 <= i < outcomes.drop_first().drop_last().len() implies (
        #[trigger] outcomes.drop_first().drop_last()[i]) is Completed by {
            assert(outcomes.drop_first().drop_last()[i] == outcomes.drop_last()[i + 1]);
        }
        lemma_verdict_after_completions(outcomes.drop_first());
        assert(verdict(outcomes) == verdict(outcomes.drop_first()));
    } else {
        assert(outcomes.drop_first() =~= Seq::<JoinOutcome<F, C>>::empty());
        assert(outcomes.last() == outcomes[0]);
        assert(verdict(outcomes.drop_first()) == Ok::<(), Failure<F, C>>(()));
    }
}

/// A run succeeds exactly when every joined task completed: with `k` tasks
/// launched, success needs all `k` outcomes, each a completion.
pub proof fn law_success_only_when_all_completed<F, C>(outcomes: Seq<JoinOutcome<F, C>>)
    ensures
        verdict(outcomes) is Ok <==> all_completed(outcomes),
    decreases outcomes.len(),
{
    if outcomes.len() > 0 {
        law_success_only_when_all_completed(outcomes.drop_first());
        if outcomes[0] is Completed {
            if all_completed(outcomes.drop_first()) {
                assert forall|i: int| 0 <= i < outcomes.len() implies (
                #[trigger] outcomes[i]) is Completed by {
                    if i > 0 {
                        assert(outcomes[i] == outcomes.drop_first()[i - 1]);
                    }
                }
            } else {
                let j = choose|j: int|
                    0 <= j < outcomes.drop_first().len() && !(
                    #[trigger] outcomes.drop_first()[j] is Completed);
                assert(!(outcomes[j + 1] is Completed));
            }
        }
    }
}

/// The first task, in registration order, that did not complete decides the
/// run, whatever the tasks registered after it do.
pub proof fn law_first_failure_wins<F, C>(outcomes: Seq<JoinOutcome<F, C>>, i: int)
    requires
        0 <= i < outcomes.len(),
        all_completed(outcomes.take(i)),
        !(outcomes[i] is Completed),
    ensures
        verdict(outcomes) == verdict(outcomes.take(i + 1)),
        outcomes[i] matches JoinOutcome::Failed(f) ==> verdict(outcomes) == Err::<(), Failure<F, C>>(Failure::Routine(f)),
        outcomes[i] matches JoinOutcome::Crashed(c) ==> verdict(outcomes) == Err::<(), Failure<F, C>>(Failure::TaskExecution(c)),
    decreases i,
{
    if i == 0 {
        assert(outcomes.take(1)[0] == outcomes[0]);
    } else {
        assert(outcomes.take(i)[0] == outcomes[0]);
        assert(outcomes.take(i + 1).drop_first() =~= outcomes.drop_first().take(i));
        assert(outcomes.drop_first().take(i - 1) =~= outcomes.take(i).drop_first());
        assert forall|j: int| 0 <= j < outcomes.drop_first().take(i - 1).len() implies (
        #[trigger] outcomes.drop_first().take(i - 1)[j]) is Completed by {
            assert(outcomes.drop_first().take(i - 1)[j] == outcomes.take(i)[j + 1]);
        }
        law_first_failure_wins(outcomes.drop_first(), i - 1);
    }
}

} // verus!
