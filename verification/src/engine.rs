//! Carrying an operation out against a store, from its first statement to
//! its outcome.

use crate::memory::MemoryStore;
use crate::model::Timestamp;
use crate::plan;
use crate::plan::{PhaseView, next, no_reply};
use crate::protocol::{
    Action, ActionView, Operation, OperationView, Outcome, OutcomeView, Reply, ReplyView,
    outcome_view,
};
use crate::store::{StoreView, apply};
use crate::workflow::Workflow;
use vstd::prelude::*;

verus! {

/// How far from the end a phase is: every move of every plan goes to
/// a phase of lower rank, but for the storing of members one by one.
pub open spec fn rank(phase: PhaseView) -> nat {
    match phase {
        PhaseView::Start => 17,
        PhaseView::Opening => 16,
        PhaseView::Probing => 15,
        PhaseView::Reading => 14,
        PhaseView::Updating => 13,
        PhaseView::ReadingEvent => 12,
        PhaseView::Counting(_) => 11,
        PhaseView::Inserting => 10,
        PhaseView::ReadingGroups(_) => 9,
        PhaseView::ReadingMembers(_) => 8,
        PhaseView::ReadingRoster(_) => 7,
        PhaseView::RemovingMembers => 6,
        PhaseView::RemovingGroups => 5,
        PhaseView::RemovingRow => 4,
        PhaseView::Replacing(_) => 3,
        PhaseView::Adding { .. } => 2,
        PhaseView::Closing(_) => 1,
        PhaseView::Finished => 0,
    }
}

/// How many of the requested members are still to be stored.
pub open spec fn backlog(operation: OperationView, phase: PhaseView) -> nat {
    let wanted: nat = match operation {
        OperationView::CreateGroup(request) => request.members.len(),
        OperationView::UpdateGroup(_, request) => request.members.len(),
        _ => 0,
    };
    match phase {
        PhaseView::Adding { added, .. } => if added.len() < wanted {
            (wanted - added.len()) as nat
        } else {
            0
        },
        _ => 0,
    }
}

/// Whether an action still has something to run.
pub open spec fn pending(action: ActionView) -> nat {
    if action is Run {
        1
    } else {
        0
    }
}

/// The store and the outcome at the end of an operation that waits in
/// `phase` for `action` to be done. Every statement is run against the
/// store and the plan is asked for the next move, until the plan finishes.
/// Then the store is settled: a commit that was not reached is a rollback.
pub open spec fn carry_out(
    store: StoreView,
    operation: OperationView,
    phase: PhaseView,
    action: ActionView,
    now: Timestamp,
) -> (StoreView, OutcomeView)
    decreases pending(action), rank(phase), backlog(operation, phase),
{
    match action {
        ActionView::Finish(outcome) => (store.settled(), outcome),
        ActionView::Run(statement) => {
            let (after, reply) = apply(store, statement, now);
            let (phase2, action2) = next(operation, phase, reply);
            carry_out(after, operation, phase2, action2, now)
        },
    }
}

/// The store and the outcome at the end of an operation run from its
/// start.
pub open spec fn run(store: StoreView, operation: OperationView, now: Timestamp) -> (
    StoreView,
    OutcomeView,
) {
    let (phase, action) = next(operation, PhaseView::Start, no_reply());
    carry_out(store, operation, phase, action, now)
}

/// Carries `operation` out against a store in memory and gives its
/// outcome. `now` is the time that new rows are stamped with.
pub fn serve(store: &mut MemoryStore, operation: Operation, now: Timestamp) -> (outcome: Outcome)
    requires
        old(store)@.wf(),
    ensures
        (final(store)@, outcome_view(outcome)) == run(old(store)@, operation@, now),
        final(store)@.wf(),
{
    let (workflow, action) = Workflow::start(operation);
    let mut workflow = workflow;
    let mut action = action;
    loop
        invariant
            store@.wf(),
            workflow.operation@ == operation@,
            run(old(store)@, operation@, now) == carry_out(
                store@,
                operation@,
                workflow.phase@,
                action@,
                now,
            ),
        decreases pending(action@), rank(workflow.phase@), backlog(operation@, workflow.phase@),
    {
        match action {
            Action::Finish(outcome) => {
                store.settle();
                return outcome;
            },
            Action::Run(statement) => {
                let reply = store.execute(statement, now);
                let (w, a) = workflow.step(reply);
                workflow = w;
                action = a;
            },
        }
    }
}

/// The store and the outcome at the end of an operation during which the
/// store fails once: the statement that comes when `countdown` has
/// reached zero is not carried out, and the store reports `why` for it.
/// Every statement before and after it is carried out as usual.
pub open spec fn carry_out_failing(
    store: StoreView,
    operation: OperationView,
    phase: PhaseView,
    action: ActionView,
    now: Timestamp,
    countdown: int,
    why: Seq<char>,
) -> (StoreView, OutcomeView)
    decreases pending(action), rank(phase), backlog(operation, phase),
{
    match action {
        ActionView::Finish(outcome) => (store.settled(), outcome),
        ActionView::Run(statement) => {
            let (after, reply) = if countdown == 0 {
                (store, ReplyView::Failed(why))
            } else {
                apply(store, statement, now)
            };
            let (phase2, action2) = next(operation, phase, reply);
            carry_out_failing(after, operation, phase2, action2, now, countdown - 1, why)
        },
    }
}

/// The store and the outcome at the end of an operation run from its
/// start, during which the store fails the statement number `countdown`,
/// counted from zero.
pub open spec fn run_failing(
    store: StoreView,
    operation: OperationView,
    now: Timestamp,
    countdown: int,
    why: Seq<char>,
) -> (StoreView, OutcomeView) {
    let (phase, action) = next(operation, PhaseView::Start, no_reply());
    carry_out_failing(store, operation, phase, action, now, countdown, why)
}

/// Carries `operation` out against a store in memory, but lets the
/// statement number `fault_at`, counted from zero, fail with `why` as if
/// the store had refused it. For rehearsing what a failing store does to
/// an operation.
pub fn serve_with_fault(
    store: &mut MemoryStore,
    operation: Operation,
    now: Timestamp,
    fault_at: usize,
    why: String,
) -> (outcome: Outcome)
    requires
        old(store)@.wf(),
    ensures
        (final(store)@, outcome_view(outcome)) == run_failing(
            old(store)@,
            operation@,
            now,
            fault_at as int,
            why@,
        ),
        final(store)@.wf(),
{
    let (workflow, action) = Workflow::start(operation);
    let mut workflow = workflow;
    let mut action = action;
    let mut countdown: Option<usize> = Some(fault_at);
    let ghost mut left: int = fault_at as int;
    loop
        invariant
            store@.wf(),
            workflow.operation@ == operation@,
            countdown matches Some(n) ==> left == n,
            countdown is None ==> left < 0,
            run_failing(old(store)@, operation@, now, fault_at as int, why@) == carry_out_failing(
                store@,
                operation@,
                workflow.phase@,
                action@,
                now,
                left,
                why@,
            ),
        decreases pending(action@), rank(workflow.phase@), backlog(operation@, workflow.phase@),
    {
        match action {
            Action::Finish(outcome) => {
                store.settle();
                return outcome;
            },
            Action::Run(statement) => {
                let reply = match countdown {
                    Some(0) => {
                        countdown = None;
                        Reply::Failed(why.clone())
                    },
                    Some(n) => {
                        countdown = Some(n - 1);
                        store.execute(statement, now)
                    },
                    None => store.execute(statement, now),
                };
                proof {
                    left = left - 1;
                }
                let (w, a) = workflow.step(reply);
                workflow = w;
                action = a;
            },
        }
    }
}

} // verus!
