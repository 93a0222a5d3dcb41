//! Operations in progress.
//!
//! An accepted request is carried out as a fixed sequence of actions, each of
//! which the caller performs and reports. The record that the operation leads
//! to is handed out for storing only after the last action has succeeded; the
//! first failure ends the operation with that failure and without a record.
//! So an operation takes effect in full or not at all.

use vstd::prelude::*;
use crate::custody::Action;
use crate::record::UserStakeInfo;

verus! {

/// An operation that was accepted and is not yet through: at least one of its
/// actions is still to be performed.
#[derive(Debug)]
pub struct Pending {
    actions: Vec<Action>,
    completed: usize,
    record: UserStakeInfo,
}

/// How an operation goes on once the outcome of its pending action is known.
#[derive(Debug)]
pub enum Progress<E> {
    /// The action succeeded and another one is to be performed.
    Perform(Pending),
    /// The last action succeeded: this record is to be stored.
    Committed(UserStakeInfo),
    /// The action failed: nothing is to be stored, and the failure is handed
    /// on as it came.
    Aborted(E),
}

impl Pending {
    /// The actions of the operation, in the order in which they are
    /// performed.
    pub closed spec fn plan(self) -> Seq<Action> {
        self.actions@
    }

    /// How many actions have succeeded so far.
    pub closed spec fn completed(self) -> nat {
        self.completed as nat
    }

    /// The record as it shall stand once the operation is through.
    pub closed spec fn record(self) -> UserStakeInfo {
        self.record
    }

    /// An action is always pending.
    #[verifier::type_invariant]
    pub closed spec fn well_formed(self) -> bool {
        self.completed < self.actions@.len()
    }

    /// Whether this is the operation that performs `plan` and leads to
    /// `record`, before its first action.
    pub open spec fn begins(self, plan: Seq<Action>, record: UserStakeInfo) -> bool {
        &&& self.plan() == plan
        &&& self.record() == record
        &&& self.completed() == 0
    }

    /// The action to perform next.
    pub open spec fn pending_action(self) -> Action {
        self.plan()[self.completed() as int]
    }

    /// Whether the pending action is the last one.
    pub open spec fn at_last_action(self) -> bool {
        self.completed() + 1 == self.plan().len()
    }

    /// The operation with one more action completed.
    pub closed spec fn next(self) -> Pending {
        Pending { completed: (self.completed + 1) as usize, ..self }
    }

    /// How the operation goes on after `outcome` of its pending action.
    pub open spec fn progress<E>(self, outcome: Result<(), E>) -> Progress<E> {
        match outcome {
            Err(failure) => Progress::Aborted(failure),
            Ok(_) => if self.at_last_action() {
                Progress::Committed(self.record())
            } else {
                Progress::Perform(self.next())
            },
        }
    }

    /// The operation that performs `actions` and leads to `record`, before
    /// its first action.
    pub(crate) fn begin(actions: Vec<Action>, record: UserStakeInfo) -> (pending: Pending)
        requires
            actions@.len() > 0,
        ensures
            pending.begins(actions@, record),
            pending.well_formed(),
    {
        Pending { actions, completed: 0, record }
    }

    /// The action that the caller has to perform next.
    pub fn action(&self) -> (action: Action)
        ensures
            action == self.pending_action(),
    {
        proof {
            use_type_invariant(self);
        }
        self.actions[self.completed]
    }

    /// Takes the outcome of the pending action and says how to go on.
    ///
    /// A failure aborts the operation and is handed back unchanged. A success
    /// leads to the next action, or, after the last one, to the record that is
    /// to be stored.
    pub fn advance<E>(self, outcome: Result<(), E>) -> (progress: Progress<E>)
        ensures
            progress == self.progress(outcome),
    {
        proof {
            use_type_invariant(&self);
        }
        match outcome {
            Err(failure) => Progress::Aborted(failure),
            Ok(_) => {
                let total = self.actions.len();
                if self.completed + 1 == total {
                    Progress::Committed(self.record)
                } else {
                    Progress::Perform(
                        Pending {
                            actions: self.actions,
                            completed: self.completed + 1,
                            record: self.record,
                        },
                    )
                }
            },
        }
    }
}

/// How an operation ends, or where it stands, after the outcomes of its
/// actions as far as `outcomes` tells them, in order. Outcomes that come after
/// the end of the operation are not looked at.
pub open spec fn run<E>(pending: Pending, outcomes: Seq<Result<(), E>>) -> Progress<E>
    decreases outcomes.len(),
{
    if outcomes.len() == 0 {
        Progress::Perform(pending)
    } else {
        match pending.progress(outcomes.first()) {
            Progress::Perform(next) => run(next, outcomes.drop_first()),
            ended => ended,
        }
    }
}

/// A failed action ends the operation at once: no record is handed out, no
/// further action is asked for, and the failure is handed on unchanged.
pub proof fn failure_aborts<E>(pending: Pending, failure: E)
    ensures
        pending.progress(Err::<(), E>(failure)) == Progress::Aborted(failure),
{
}

/// An operation before its first action has every action of its plan ahead,
/// and asks for the first of them.
pub proof fn begins_with_first_action(pending: Pending, plan: Seq<Action>, record: UserStakeInfo)
    requires
        pending.begins(plan, record),
        plan.len() > 0,
    ensures
        pending.well_formed(),
        pending.pending_action() == plan[0],
{
}

/// The actions are asked for in the order of the plan, each only after the
/// one before it has succeeded: a success at any but the last action leads to
/// the same operation, one action further on.
pub proof fn success_moves_to_next_action<E>(pending: Pending)
    requires
        pending.well_formed(),
        !pending.at_last_action(),
    ensures
        pending.progress(Ok::<(), E>(())) == Progress::<E>::Perform(pending.next()),
        pending.next().well_formed(),
        pending.next().plan() == pending.plan(),
        pending.next().record() == pending.record(),
        pending.next().completed() == pending.completed() + 1,
        pending.next().pending_action() == pending.plan()[pending.completed() as int + 1],
{
    lemma_plan_fits(pending);
}

/// A plan is held in memory, so its length is a machine integer.
proof fn lemma_plan_fits(pending: Pending)
    ensures
        pending.plan().len() <= usize::MAX,
{
    assert(pending.actions@.len() == pending.actions.len());
}

/// An operation takes effect in full or not at all. The record is handed out
/// exactly when every action that was still to be performed has succeeded,
/// and then it is the record that the operation was accepted for. Where an
/// action fails after successes only, the operation ends with that failure.
pub proof fn all_or_nothing<E>(pending: Pending, outcomes: Seq<Result<(), E>>)
    requires
        pending.well_formed(),
    ensures
        run(pending, outcomes) is Committed <==> (outcomes.len() >= pending.plan().len()
            - pending.completed() && forall|i: int|
            0 <= i < pending.plan().len() - pending.completed() ==> (#[trigger] outcomes[i]) is Ok),
        run(pending, outcomes) is Committed ==> run(pending, outcomes) == Progress::<E>::Committed(
            pending.record(),
        ),
        forall|k: int|
            0 <= k < outcomes.len() && k < pending.plan().len() - pending.completed()
                && (#[trigger] outcomes[k]) is Err && (forall|i: int|
                0 <= i < k ==> (#[trigger] outcomes[i]) is Ok) ==> run(pending, outcomes)
                == Progress::Aborted(outcomes[k]->Err_0),
    decreases outcomes.len(),
{
    let left = pending.plan().len() - pending.completed();
    lemma_plan_fits(pending);
    if outcomes.len() > 0 {
        let rest = outcomes.drop_first();
        match outcomes.first() {
            Err(failure) => {
                assert(outcomes[0] is Err);
            },
            Ok(_) => {
                if pending.at_last_action() {
                    assert(left == 1);
                } else {
                    let next = pending.next();
                    all_or_nothing(next, rest);
                    assert(forall|i: int| 0 <= i < rest.len() ==> rest[i] == outcomes[i + 1]);
                    if run(pending, outcomes) is Committed {
                        assert forall|i: int| 0 <= i < left implies (#[trigger] outcomes[i]) is Ok by {
                            if i > 0 {
                                assert(rest[i - 1] is Ok);
                            }
                        }
                    }
                    if outcomes.len() >= left && forall|i: int|
                        0 <= i < left ==> (#[trigger] outcomes[i]) is Ok {
                        assert forall|i: int| 0 <= i < left - 1 implies (#[trigger] rest[i]) is Ok by {
                            assert(outcomes[i + 1] is Ok);
                        }
                    }
                    assert forall|k: int|
                        0 <= k < outcomes.len() && k < left && (#[trigger] outcomes[k]) is Err && (
                        forall|i: int| 0 <= i < k ==> (#[trigger] outcomes[i]) is Ok) implies run(
                        pending,
                        outcomes,
                    ) == Progress::Aborted(outcomes[k]->Err_0) by {
                        assert(k > 0);
                        assert(rest[k - 1] == outcomes[k]);
                        assert forall|i: int| 0 <= i < k - 1 implies (#[trigger] rest[i]) is Ok by {
                            assert(outcomes[i + 1] is Ok);
                        }
                    }
                }
            },
        }
    }
}

} // verus!
