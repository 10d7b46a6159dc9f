//! Carrying an operation out, statement by statement, comes to what the
//! module `rules` says of it.

use crate::assemble::attach;
use crate::engine::{carry_out, carry_out_failing, run, run_failing};
use crate::error::ErrorView;
use crate::model::{
    EventFieldsView, GroupUpdateView, GroupView, GroupWithMembersView, MemberRequestView,
    MemberView, NewGroupView, NewMemberView, Timestamp,
};
use crate::paging::Pagination;
use crate::plan;
use crate::protocol::{OperationView, OutcomeView, ResponseView};
use crate::rules;
use crate::rules::{fresh_members, has_member_ids};
use crate::store::{
    StoreView, Tables, changed_group, groups_of, members_outside, members_under, new_group,
    new_member,
};
use crate::text::ids_exhausted;
use vstd::prelude::*;

verus! {

/// A store that holds `t` and has no transaction open.
pub open spec fn idle(t: Tables) -> StoreView {
    StoreView { live: t, saved: None }
}

/// Removing an event with all it owns comes to what the rules say.
pub proof fn lemma_delete_event(t: Tables, id: Seq<char>, now: Timestamp)
    ensures
        run(idle(t), OperationView::DeleteEvent(id), now) == (
            idle(rules::delete_event(t, id).0),
            rules::delete_event(t, id).1,
        ),
{
    reveal_with_fuel(carry_out, 8);
}

/// Listing a page of events comes to what the rules say.
pub proof fn lemma_list_events(t: Tables, page: Pagination, now: Timestamp)
    ensures
        run(idle(t), OperationView::ListEvents(page), now) == (
            idle(rules::list_events(t, page).0),
            rules::list_events(t, page).1,
        ),
{
    reveal_with_fuel(carry_out, 3);
}

/// Storing a new event comes to what the rules say.
pub proof fn lemma_create_event(
    t: Tables,
    id: Seq<char>,
    fields: EventFieldsView,
    now: Timestamp,
)
    ensures
        run(idle(t), OperationView::CreateEvent { id, fields }, now) == (
            idle(rules::create_event(t, id, fields, now).0),
            rules::create_event(t, id, fields, now).1,
        ),
{
    reveal_with_fuel(carry_out, 3);
}

/// Fetching an event with its groups comes to what the rules say.
pub proof fn lemma_get_event(t: Tables, id: Seq<char>, now: Timestamp)
    ensures
        run(idle(t), OperationView::GetEvent(id), now) == (
            idle(rules::get_event(t, id).0),
            rules::get_event(t, id).1,
        ),
{
    reveal_with_fuel(carry_out, 4);
}

/// Replacing the fields of an event comes to what the rules say.
pub proof fn lemma_update_event(
    t: Tables,
    id: Seq<char>,
    fields: EventFieldsView,
    now: Timestamp,
)
    ensures
        run(idle(t), OperationView::UpdateEvent(id, fields), now) == (
            idle(rules::update_event(t, id, fields).0),
            rules::update_event(t, id, fields).1,
        ),
{
    reveal_with_fuel(carry_out, 3);
}

/// Listing a page of groups comes to what the rules say.
pub proof fn lemma_list_groups(t: Tables, page: Pagination, now: Timestamp)
    ensures
        run(idle(t), OperationView::ListGroups(page), now) == (
            idle(rules::list_groups(t, page).0),
            rules::list_groups(t, page).1,
        ),
{
    reveal_with_fuel(carry_out, 3);
}

/// Fetching a group with its members comes to what the rules say.
pub proof fn lemma_get_group(t: Tables, id: i64, now: Timestamp)
    ensures
        run(idle(t), OperationView::GetGroup(id), now) == (
            idle(rules::get_group(t, id).0),
            rules::get_group(t, id).1,
        ),
{
    reveal_with_fuel(carry_out, 4);
}

/// Removing a group with its members comes to what the rules say.
pub proof fn lemma_delete_group(t: Tables, id: i64, now: Timestamp)
    ensures
        run(idle(t), OperationView::DeleteGroup(id), now) == (
            idle(rules::delete_group(t, id).0),
            rules::delete_group(t, id).1,
        ),
{
    reveal_with_fuel(carry_out, 7);
}

/// Listing the groups of an event with their members comes to what the
/// rules say.
pub proof fn lemma_list_event_groups(t: Tables, id: Seq<char>, now: Timestamp)
    ensures
        run(idle(t), OperationView::ListEventGroups(id), now) == (
            idle(rules::list_event_groups(t, id).0),
            rules::list_event_groups(t, id).1,
        ),
{
    reveal_with_fuel(carry_out, 5);
    if t.has_event(id) && groups_of(t.groups, id).len() == 0 {
        assert(attach(
            groups_of(t.groups, id),
            members_under(t.members, t.groups, id),
        ) =~= Seq::empty());
    }
}

/// Adding a member to a group comes to what the rules say.
pub proof fn lemma_create_member(t: Tables, request: MemberRequestView, now: Timestamp)
    requires
        t.wf(),
    ensures
        run(idle(t), OperationView::CreateMember(request), now) == (
            idle(rules::create_member(t, request).0),
            rules::create_member(t, request).1,
        ),
{
    reveal_with_fuel(carry_out, 8);
}

/// Removing a member comes to what the rules say.
pub proof fn lemma_delete_member(t: Tables, id: i64, now: Timestamp)
    ensures
        run(idle(t), OperationView::DeleteMember(id), now) == (
            idle(rules::delete_member(t, id).0),
            rules::delete_member(t, id).1,
        ),
{
    reveal_with_fuel(carry_out, 4);
}

/// Listing the members of a group comes to what the rules say.
pub proof fn lemma_list_group_members(t: Tables, id: i64, now: Timestamp)
    ensures
        run(idle(t), OperationView::ListGroupMembers(id), now) == (
            idle(rules::list_group_members(t, id).0),
            rules::list_group_members(t, id).1,
        ),
{
    reveal_with_fuel(carry_out, 4);
}

/// The members that an operation has to store.
pub open spec fn wanted(operation: OperationView) -> Seq<NewMemberView> {
    match operation {
        OperationView::CreateGroup(request) => request.members,
        OperationView::UpdateGroup(_, request) => request.members,
        _ => Seq::empty(),
    }
}

/// The group that an operation stores members for.
pub open spec fn target(operation: OperationView, group: GroupView) -> i64 {
    match operation {
        OperationView::UpdateGroup(id, _) => id,
        _ => group.id,
    }
}

/// The answer that waits behind the commit, once `added` are stored.
pub open spec fn answer(
    operation: OperationView,
    group: GroupView,
    added: Seq<MemberView>,
) -> ResponseView {
    match operation {
        OperationView::UpdateGroup(_, _) => ResponseView::GroupWithMembers(
            GroupWithMembersView { group, members: added },
        ),
        _ => ResponseView::Group(group),
    }
}

/// Storing the members of a request one by one, from any point on: if
/// there are fresh ids for all that are left, all of them are stored and
/// the transaction is committed; if not, the transaction is rolled back.
pub proof fn lemma_adding(
    store: StoreView,
    operation: OperationView,
    group: GroupView,
    added: Seq<MemberView>,
    now: Timestamp,
)
    requires
        operation is CreateGroup || operation is UpdateGroup,
        added.len() <= wanted(operation).len(),
        store.saved is Some,
    ensures
        ({
            let step = plan::add_next(
                group,
                added,
                wanted(operation),
                target(operation, group),
                answer(operation, group, added),
            );
            let rest = wanted(operation).skip(added.len() as int);
            let t = store.live;
            let rows = fresh_members(t.next_member_id, target(operation, group), rest);
            carry_out(store, operation, step.0, step.1, now) == if has_member_ids(t, rest.len()) {
                (
                    idle(
                        Tables {
                            members: t.members + rows,
                            next_member_id: (t.next_member_id + rest.len()) as i64,
                            ..t
                        },
                    ),
                    Ok::<ResponseView, ErrorView>(
                        answer(operation, group, added + rows),
                    ),
                )
            } else {
                (
                    store.settled(),
                    Err::<ResponseView, ErrorView>(
                        ErrorView::Database(ids_exhausted()),
                    ),
                )
            }
        }),
    decreases wanted(operation).len() - added.len(),
{
    let members = wanted(operation);
    let gid = target(operation, group);
    let k = added.len() as int;
    let t = store.live;
    let rest = members.skip(k);
    let rows = fresh_members(t.next_member_id, gid, rest);
    reveal_with_fuel(carry_out, 3);
    if k < members.len() {
        if t.next_member_id != i64::MAX {
            let row = new_member(t.next_member_id, gid, members[k]);
            let grown = store.with(t.with_new_member(row));
            lemma_adding(grown, operation, group, added.push(row), now);
            let rest2 = members.skip(k + 1);
            let rows2 = fresh_members((t.next_member_id + 1) as i64, gid, rest2);
            assert(t.members + rows =~= t.members.push(row) + rows2);
            assert(added + rows =~= added.push(row) + rows2);
        }
    }
}

/// Storing a new group with its members comes to what the rules say.
pub proof fn lemma_create_group(
    t: Tables,
    request: NewGroupView,
    now: Timestamp,
)
    ensures
        run(idle(t), OperationView::CreateGroup(request), now) == (
            idle(rules::create_group(t, request, now).0),
            rules::create_group(t, request, now).1,
        ),
{
    reveal_with_fuel(carry_out, 5);
    let operation = OperationView::CreateGroup(request);
    if t.has_event(request.event_id) && t.next_group_id != i64::MAX {
        let group = new_group(
            t.next_group_id,
            request.event_id,
            request.fields(),
            now,
        );
        let opened = StoreView { live: t.with_new_group(group), saved: Some(t) };
        lemma_adding(opened, operation, group, Seq::empty(), now);
        assert(request.members.skip(0) =~= request.members);
    }
}

/// Replacing the fields and members of a group comes to what the rules
/// say.
pub proof fn lemma_update_group(
    t: Tables,
    id: i64,
    request: GroupUpdateView,
    now: Timestamp,
)
    ensures
        run(idle(t), OperationView::UpdateGroup(id, request), now) == (
            idle(rules::update_group(t, id, request).0),
            rules::update_group(t, id, request).1,
        ),
{
    reveal_with_fuel(carry_out, 6);
    let operation = OperationView::UpdateGroup(id, request);
    if t.has_group(id) {
        let group = changed_group(t.groups[t.group_place(id)], request.fields());
        let written = t.with_groups(t.groups.update(t.group_place(id), group));
        let cleared = written.with_members(members_outside(t.members, id));
        let opened = StoreView { live: cleared, saved: Some(t) };
        lemma_adding(opened, operation, group, Seq::empty(), now);
        assert(request.members.skip(0) =~= request.members);
    }
}

/// Carrying any operation out against a well-formed store with no
/// transaction open comes to what the rules say of it, and leaves no
/// transaction open.
pub proof fn theorem_run_follows_rules(t: Tables, operation: OperationView, now: Timestamp)
    requires
        t.wf(),
    ensures
        run(idle(t), operation, now) == (
            idle(rules::result(t, operation, now).0),
            rules::result(t, operation, now).1,
        ),
{
    match operation {
        OperationView::ListEvents(page) => lemma_list_events(t, page, now),
        OperationView::CreateEvent { id, fields } => lemma_create_event(t, id, fields, now),
        OperationView::GetEvent(id) => lemma_get_event(t, id, now),
        OperationView::UpdateEvent(id, fields) => lemma_update_event(t, id, fields, now),
        OperationView::DeleteEvent(id) => lemma_delete_event(t, id, now),
        OperationView::ListGroups(page) => lemma_list_groups(t, page, now),
        OperationView::CreateGroup(request) => lemma_create_group(t, request, now),
        OperationView::GetGroup(id) => lemma_get_group(t, id, now),
        OperationView::UpdateGroup(id, request) => lemma_update_group(t, id, request, now),
        OperationView::DeleteGroup(id) => lemma_delete_group(t, id, now),
        OperationView::ListEventGroups(id) => lemma_list_event_groups(t, id, now),
        OperationView::CreateMember(request) => lemma_create_member(t, request, now),
        OperationView::DeleteMember(id) => lemma_delete_member(t, id, now),
        OperationView::ListGroupMembers(id) => lemma_list_group_members(t, id, now),
    }
}

/// What an operation comes to when the store has failed it: nothing is
/// changed, and the store's failure is the answer.
pub open spec fn rolled_back(t: Tables, why: Seq<char>) -> (StoreView, OutcomeView) {
    (idle(t), Err(ErrorView::Database(why)))
}

/// Storing members one by one while the store fails once: either the
/// failure is not reached and all goes as without it, or everything since
/// the transaction was opened is rolled back.
proof fn lemma_adding_failing(
    store: StoreView,
    operation: OperationView,
    group: GroupView,
    added: Seq<MemberView>,
    now: Timestamp,
    countdown: int,
    why: Seq<char>,
)
    requires
        operation is CreateGroup || operation is UpdateGroup,
        added.len() <= wanted(operation).len(),
        store.saved is Some,
    ensures
        ({
            let step = plan::add_next(
                group,
                added,
                wanted(operation),
                target(operation, group),
                answer(operation, group, added),
            );
            let failing = carry_out_failing(
                store,
                operation,
                step.0,
                step.1,
                now,
                countdown,
                why,
            );
            failing == carry_out(store, operation, step.0, step.1, now) || failing == rolled_back(
                store.saved.unwrap(),
                why,
            )
        }),
    decreases wanted(operation).len() - added.len(),
{
    let members = wanted(operation);
    let gid = target(operation, group);
    let k = added.len() as int;
    let t = store.live;
    reveal_with_fuel(carry_out, 3);
    reveal_with_fuel(carry_out_failing, 3);
    if k < members.len() && countdown != 0 && t.next_member_id != i64::MAX {
        let row = new_member(t.next_member_id, gid, members[k]);
        let grown = store.with(t.with_new_member(row));
        lemma_adding_failing(grown, operation, group, added.push(row), now, countdown - 1, why);
    }
}

proof fn lemma_create_group_failing(
    t: Tables,
    request: NewGroupView,
    now: Timestamp,
    countdown: int,
    why: Seq<char>,
)
    ensures
        ({
            let operation = OperationView::CreateGroup(request);
            let failing = run_failing(idle(t), operation, now, countdown, why);
            failing == run(idle(t), operation, now) || failing == rolled_back(t, why)
        }),
{
    reveal_with_fuel(carry_out, 5);
    reveal_with_fuel(carry_out_failing, 5);
    let operation = OperationView::CreateGroup(request);
    if t.has_event(request.event_id) && t.next_group_id != i64::MAX && countdown != 0 && countdown
        != 1 && countdown != 2 {
        let group = new_group(
            t.next_group_id,
            request.event_id,
            request.fields(),
            now,
        );
        let opened = StoreView { live: t.with_new_group(group), saved: Some(t) };
        lemma_adding_failing(opened, operation, group, Seq::empty(), now, countdown - 3, why);
    }
}

proof fn lemma_update_group_failing(
    t: Tables,
    id: i64,
    request: GroupUpdateView,
    now: Timestamp,
    countdown: int,
    why: Seq<char>,
)
    ensures
        ({
            let operation = OperationView::UpdateGroup(id, request);
            let failing = run_failing(idle(t), operation, now, countdown, why);
            failing == run(idle(t), operation, now) || failing == rolled_back(t, why)
        }),
{
    reveal_with_fuel(carry_out, 6);
    reveal_with_fuel(carry_out_failing, 6);
    let operation = OperationView::UpdateGroup(id, request);
    if t.has_group(id) && countdown != 0 && countdown != 1 && countdown != 2 && countdown != 3 {
        let group = changed_group(t.groups[t.group_place(id)], request.fields());
        let written = t.with_groups(t.groups.update(t.group_place(id), group));
        let cleared = written.with_members(members_outside(t.members, id));
        let opened = StoreView { live: cleared, saved: Some(t) };
        lemma_adding_failing(opened, operation, group, Seq::empty(), now, countdown - 4, why);
    }
}

proof fn lemma_list_events_failing(
    t: Tables,
    page: Pagination,
    now: Timestamp,
    countdown: int,
    why: Seq<char>,
)
    ensures
        ({
            let operation = OperationView::ListEvents(page);
            let failing = run_failing(idle(t), operation, now, countdown, why);
            failing == run(idle(t), operation, now) || failing == rolled_back(t, why)
        }),
{
    reveal_with_fuel(carry_out, 3);
    reveal_with_fuel(carry_out_failing, 3);
}

proof fn lemma_create_event_failing(
    t: Tables,
    id: Seq<char>,
    fields: EventFieldsView,
    now: Timestamp,
    countdown: int,
    why: Seq<char>,
)
    ensures
        ({
            let operation = OperationView::CreateEvent { id, fields };
            let failing = run_failing(idle(t), operation, now, countdown, why);
            failing == run(idle(t), operation, now) || failing == rolled_back(t, why)
        }),
{
    reveal_with_fuel(carry_out, 3);
    reveal_with_fuel(carry_out_failing, 3);
}

proof fn lemma_get_event_failing(
    t: Tables,
    id: Seq<char>,
    now: Timestamp,
    countdown: int,
    why: Seq<char>,
)
    ensures
        ({
            let operation = OperationView::GetEvent(id);
            let failing = run_failing(idle(t), operation, now, countdown, why);
            failing == run(idle(t), operation, now) || failing == rolled_back(t, why)
        }),
{
    reveal_with_fuel(carry_out, 4);
    reveal_with_fuel(carry_out_failing, 4);
}

proof fn lemma_update_event_failing(
    t: Tables,
    id: Seq<char>,
    fields: EventFieldsView,
    now: Timestamp,
    countdown: int,
    why: Seq<char>,
)
    ensures
        ({
            let operation = OperationView::UpdateEvent(id, fields);
            let failing = run_failing(idle(t), operation, now, countdown, why);
            failing == run(idle(t), operation, now) || failing == rolled_back(t, why)
        }),
{
    reveal_with_fuel(carry_out, 3);
    reveal_with_fuel(carry_out_failing, 3);
}

proof fn lemma_delete_event_failing(
    t: Tables,
    id: Seq<char>,
    now: Timestamp,
    countdown: int,
    why: Seq<char>,
)
    ensures
        ({
            let operation = OperationView::DeleteEvent(id);
            let failing = run_failing(idle(t), operation, now, countdown, why);
            failing == run(idle(t), operation, now) || failing == rolled_back(t, why)
        }),
{
    reveal_with_fuel(carry_out, 8);
    reveal_with_fuel(carry_out_failing, 8);
}

proof fn lemma_list_groups_failing(
    t: Tables,
    page: Pagination,
    now: Timestamp,
    countdown: int,
    why: Seq<char>,
)
    ensures
        ({
            let operation = OperationView::ListGroups(page);
            let failing = run_failing(idle(t), operation, now, countdown, why);
            failing == run(idle(t), operation, now) || failing == rolled_back(t, why)
        }),
{
    reveal_with_fuel(carry_out, 3);
    reveal_with_fuel(carry_out_failing, 3);
}

proof fn lemma_get_group_failing(
    t: Tables,
    id: i64,
    now: Timestamp,
    countdown: int,
    why: Seq<char>,
)
    ensures
        ({
            let operation = OperationView::GetGroup(id);
            let failing = run_failing(idle(t), operation, now, countdown, why);
            failing == run(idle(t), operation, now) || failing == rolled_back(t, why)
        }),
{
    reveal_with_fuel(carry_out, 4);
    reveal_with_fuel(carry_out_failing, 4);
}

proof fn lemma_delete_group_failing(
    t: Tables,
    id: i64,
    now: Timestamp,
    countdown: int,
    why: Seq<char>,
)
    ensures
        ({
            let operation = OperationView::DeleteGroup(id);
            let failing = run_failing(idle(t), operation, now, countdown, why);
            failing == run(idle(t), operation, now) || failing == rolled_back(t, why)
        }),
{
    reveal_with_fuel(carry_out, 7);
    reveal_with_fuel(carry_out_failing, 7);
}

proof fn lemma_list_event_groups_failing(
    t: Tables,
    id: Seq<char>,
    now: Timestamp,
    countdown: int,
    why: Seq<char>,
)
    ensures
        ({
            let operation = OperationView::ListEventGroups(id);
            let failing = run_failing(idle(t), operation, now, countdown, why);
            failing == run(idle(t), operation, now) || failing == rolled_back(t, why)
        }),
{
    reveal_with_fuel(carry_out, 5);
    reveal_with_fuel(carry_out_failing, 5);
}

proof fn lemma_create_member_failing(
    t: Tables,
    request: MemberRequestView,
    now: Timestamp,
    countdown: int,
    why: Seq<char>,
)
    ensures
        ({
            let operation = OperationView::CreateMember(request);
            let failing = run_failing(idle(t), operation, now, countdown, why);
            failing == run(idle(t), operation, now) || failing == rolled_back(t, why)
        }),
{
    reveal_with_fuel(carry_out, 8);
    reveal_with_fuel(carry_out_failing, 8);
}

proof fn lemma_delete_member_failing(
    t: Tables,
    id: i64,
    now: Timestamp,
    countdown: int,
    why: Seq<char>,
)
    ensures
        ({
            let operation = OperationView::DeleteMember(id);
            let failing = run_failing(idle(t), operation, now, countdown, why);
            failing == run(idle(t), operation, now) || failing == rolled_back(t, why)
        }),
{
    reveal_with_fuel(carry_out, 4);
    reveal_with_fuel(carry_out_failing, 4);
}

proof fn lemma_list_group_members_failing(
    t: Tables,
    id: i64,
    now: Timestamp,
    countdown: int,
    why: Seq<char>,
)
    ensures
        ({
            let operation = OperationView::ListGroupMembers(id);
            let failing = run_failing(idle(t), operation, now, countdown, why);
            failing == run(idle(t), operation, now) || failing == rolled_back(t, why)
        }),
{
    reveal_with_fuel(carry_out, 4);
    reveal_with_fuel(carry_out_failing, 4);
}

/// All or nothing: if the store fails any one statement of an operation,
/// the operation answers with that failure as a database error and the
/// tables are as they were before it began, whatever it had written by
/// then. If the operation ends before the failure comes, all goes as
/// without it.
pub proof fn theorem_failure_rolls_back(
    t: Tables,
    operation: OperationView,
    now: Timestamp,
    countdown: int,
    why: Seq<char>,
)
    ensures
        ({
            let failing = run_failing(idle(t), operation, now, countdown, why);
            failing == run(idle(t), operation, now) || failing == rolled_back(t, why)
        }),
{
    match operation {
        OperationView::CreateGroup(request) => lemma_create_group_failing(
            t,
            request,
            now,
            countdown,
            why,
        ),
        OperationView::UpdateGroup(id, request) => lemma_update_group_failing(
            t,
            id,
            request,
            now,
            countdown,
            why,
        ),
        OperationView::ListEvents(page) => lemma_list_events_failing(t, page, now, countdown, why),
        OperationView::CreateEvent { id, fields } => lemma_create_event_failing(
            t,
            id,
            fields,
            now,
            countdown,
            why,
        ),
        OperationView::GetEvent(id) => lemma_get_event_failing(t, id, now, countdown, why),
        OperationView::UpdateEvent(id, fields) => lemma_update_event_failing(
            t,
            id,
            fields,
            now,
            countdown,
            why,
        ),
        OperationView::DeleteEvent(id) => lemma_delete_event_failing(t, id, now, countdown, why),
        OperationView::ListGroups(page) => lemma_list_groups_failing(t, page, now, countdown, why),
        OperationView::GetGroup(id) => lemma_get_group_failing(t, id, now, countdown, why),
        OperationView::DeleteGroup(id) => lemma_delete_group_failing(t, id, now, countdown, why),
        OperationView::ListEventGroups(id) => lemma_list_event_groups_failing(
            t,
            id,
            now,
            countdown,
            why,
        ),
        OperationView::CreateMember(request) => lemma_create_member_failing(
            t,
            request,
            now,
            countdown,
            why,
        ),
        OperationView::DeleteMember(id) => lemma_delete_member_failing(t, id, now, countdown, why),
        OperationView::ListGroupMembers(id) => lemma_list_group_members_failing(
            t,
            id,
            now,
            countdown,
            why,
        ),
    }
}

} // verus!
