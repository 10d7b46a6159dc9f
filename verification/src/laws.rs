//! What holds of the registry whatever it holds and whatever is asked of
//! it.

use crate::assemble::{attach, members_of, seen_before};
use crate::engine::{backlog, carry_out, pending, rank, run_failing};
use crate::error::ErrorView;
use crate::invariants::{
    lemma_apply_keeps_wf, lemma_event_place, lemma_event_slot_exists, lemma_group_place,
    lemma_group_slot_exists, lemma_groups_filter,
};
use crate::model::{
    EventFieldsView, EventView, GroupUpdateView, GroupView, GroupWithMembersView,
    MemberRequestView, MemberView, NewGroupView, Timestamp,
};
use crate::plan;
use crate::plan::PhaseView;
use crate::protocol::{ActionView, OperationView, ReplyView, ResponseView, StatementView};
use crate::rules;
use crate::rules::fresh_members;
use crate::seqs::{lemma_filter_all, lemma_filter_items, lemma_filter_nothing, lemma_filter_twice};
use crate::soundness::{idle, theorem_failure_rolls_back, theorem_run_follows_rules};
use crate::store::{
    StoreView, Tables, apply, changed_event, groups_of, holds_event, holds_group, is_event_slot,
    is_first_group, is_group_slot, members_beyond, members_outside, members_under, new_event,
    new_group, owns,
};
use crate::text::{
    event_not_found, group_closed, group_full, group_not_found, member_not_found, negative_limit,
};
use vstd::prelude::*;

verus! {

/// Once an operation has sent its first statement, a failure that the
/// store reports ends it, and the failure is passed on unchanged as a
/// database error.
pub proof fn law_store_failure_is_passed_on(
    operation: OperationView,
    phase: PhaseView,
    why: Seq<char>,
)
    requires
        !(phase is Start),
    ensures
        plan::next(operation, phase, ReplyView::Failed(why)) == plan::fail(
            ErrorView::Database(why),
        ),
{
}

/// The operations that write more than one row, or check before they
/// write.
pub open spec fn is_composite(operation: OperationView) -> bool {
    operation is DeleteEvent || operation is CreateGroup || operation is UpdateGroup
        || operation is DeleteGroup || operation is CreateMember
}

/// An operation that writes more than one row begins by opening a
/// transaction.
pub proof fn law_composite_operations_open_a_transaction(operation: OperationView)
    requires
        is_composite(operation),
    ensures
        plan::next(operation, PhaseView::Start, plan::no_reply()).1 == ActionView::Run(
            StatementView::Begin,
        ),
{
}

/// From any point of any operation, carrying it out leaves a well-formed
/// store well-formed.
pub proof fn lemma_carry_out_keeps_wf(
    store: StoreView,
    operation: OperationView,
    phase: PhaseView,
    action: ActionView,
    now: Timestamp,
)
    requires
        store.wf(),
    ensures
        carry_out(store, operation, phase, action, now).0.wf(),
    decreases pending(action), rank(phase), backlog(operation, phase),
{
    match action {
        ActionView::Finish(_) => {},
        ActionView::Run(statement) => {
            lemma_apply_keeps_wf(store, statement, now);
            let (after, reply) = apply(store, statement, now);
            let (phase2, action2) = plan::next(operation, phase, reply);
            lemma_carry_out_keeps_wf(after, operation, phase2, action2, now);
        },
    }
}

/// Whatever the operation, it leaves well-formed tables well-formed.
pub proof fn law_tables_stay_well_formed(t: Tables, operation: OperationView, now: Timestamp)
    requires
        t.wf(),
    ensures
        rules::result(t, operation, now).0.wf(),
{
    theorem_run_follows_rules(t, operation, now);
    let first = plan::next(operation, PhaseView::Start, plan::no_reply());
    lemma_carry_out_keeps_wf(idle(t), operation, first.0, first.1, now);
}

/// All or nothing: if the store fails any one statement of an operation,
/// then either the operation had ended before and all is as the rules
/// say, or the failure is the answer and the tables are as they were
/// before the operation began.
pub proof fn law_all_or_nothing(
    t: Tables,
    operation: OperationView,
    now: Timestamp,
    countdown: int,
    why: Seq<char>,
)
    requires
        t.wf(),
    ensures
        ({
            let failing = run_failing(idle(t), operation, now, countdown, why);
            ||| failing == (
                idle(rules::result(t, operation, now).0),
                rules::result(t, operation, now).1,
            )
            ||| failing == (idle(t), Err::<ResponseView, ErrorView>(ErrorView::Database(why)))
        }),
{
    theorem_run_follows_rules(t, operation, now);
    theorem_failure_rolls_back(t, operation, now, countdown, why);
}

/// No event is ever stored with a limit below zero: creating or changing
/// an event with such a limit is refused and changes nothing, and whatever
/// else is done, every event's limit stays at zero or above.
pub proof fn law_limits_are_never_negative(t: Tables, operation: OperationView, now: Timestamp)
    requires
        t.wf(),
    ensures
        forall|i: int|
            0 <= i < rules::result(t, operation, now).0.events.len() ==> (
            #[trigger] rules::result(t, operation, now).0.events[i]).group_size_limit >= 0,
        (operation matches OperationView::CreateEvent { id, fields } && fields.group_size_limit
            < 0) ==> rules::result(t, operation, now) == (
            t,
            Err::<ResponseView, ErrorView>(ErrorView::ValidationError(negative_limit())),
        ),
        (operation matches OperationView::UpdateEvent(id, fields) && fields.group_size_limit < 0)
            ==> rules::result(t, operation, now) == (
            t,
            Err::<ResponseView, ErrorView>(ErrorView::ValidationError(negative_limit())),
        ),
{
    law_tables_stay_well_formed(t, operation, now);
}

/// An operation that fails changes nothing.
pub proof fn law_failure_changes_nothing(t: Tables, operation: OperationView, now: Timestamp)
    requires
        rules::result(t, operation, now).1 is Err,
    ensures
        rules::result(t, operation, now).0 == t,
{
}

/// The operations that only read.
pub open spec fn only_reads(operation: OperationView) -> bool {
    operation is ListEvents || operation is GetEvent || operation is ListGroups
        || operation is GetGroup || operation is ListEventGroups || operation is ListGroupMembers
}

/// An operation that only reads sends only statements that only read,
/// outside of any transaction.
pub proof fn law_reads_send_reads(operation: OperationView, phase: PhaseView, reply: ReplyView)
    requires
        only_reads(operation),
    ensures
        plan::next(operation, phase, reply).1 matches ActionView::Run(statement)
            ==> statement.only_reads(),
{
}

/// A statement that only reads leaves the store as it is.
pub proof fn law_reading_statements_change_nothing(
    store: StoreView,
    statement: StatementView,
    now: Timestamp,
)
    requires
        statement.only_reads(),
    ensures
        apply(store, statement, now).0 == store,
{
}

/// An operation that only reads changes nothing, and asked again it
/// answers the same, at whatever time.
pub proof fn law_reads_repeat(t: Tables, operation: OperationView, now: Timestamp, later: Timestamp)
    requires
        only_reads(operation),
    ensures
        rules::result(t, operation, now).0 == t,
        rules::result(rules::result(t, operation, now).0, operation, later).1 == rules::result(
            t,
            operation,
            now,
        ).1,
{
}

/// Removing an event that exists succeeds and takes with it every group
/// of the event and every member of those groups. Afterwards the event
/// and each of those groups is answered with "not found", and so is the
/// removal of each of those members. Groups of other events stay, with
/// their members.
pub proof fn law_delete_event_cascades(t: Tables, id: Seq<char>)
    requires
        t.wf(),
        t.has_event(id),
    ensures
        rules::delete_event(t, id).1 == Ok::<ResponseView, ErrorView>(ResponseView::NoContent),
        ({
            let after = rules::delete_event(t, id).0;
            &&& !after.has_event(id)
            &&& rules::get_event(after, id).1 == Err::<ResponseView, ErrorView>(
                ErrorView::NotFound(event_not_found(id)),
            )
            &&& forall|i: int|
                0 <= i < t.groups.len() && (#[trigger] t.groups[i]).event_id == id ==> {
                    &&& !after.has_group(t.groups[i].id)
                    &&& rules::get_group(after, t.groups[i].id).1 == Err::<
                        ResponseView,
                        ErrorView,
                    >(ErrorView::NotFound(group_not_found(t.groups[i].id)))
                }
            &&& forall|i: int|
                0 <= i < t.members.len() && owns(t.groups, id, (#[trigger] t.members[i]).group_id)
                    ==> {
                    &&& !after.has_member(t.members[i].id)
                    &&& rules::delete_member(after, t.members[i].id).1 == Err::<
                        ResponseView,
                        ErrorView,
                    >(ErrorView::NotFound(member_not_found(t.members[i].id)))
                }
            &&& forall|i: int|
                0 <= i < t.groups.len() && (#[trigger] t.groups[i]).event_id != id ==> {
                    &&& after.group(t.groups[i].id) == Some(t.groups[i])
                    &&& members_of(after.members, t.groups[i].id) == members_of(
                        t.members,
                        t.groups[i].id,
                    )
                }
        }),
{
    let after = rules::delete_event(t, id).0;
    lemma_filter_items(t.groups, |g: GroupView| g.event_id != id);
    lemma_filter_items(t.members, |m: MemberView| !owns(t.groups, id, m.group_id));
    assert forall|i: int|
        0 <= i < t.groups.len() && (#[trigger] t.groups[i]).event_id != id implies after.group(
        t.groups[i].id,
    ) == Some(t.groups[i]) && members_of(after.members, t.groups[i].id) == members_of(
        t.members,
        t.groups[i].id,
    ) by {
        let g = t.groups[i];
        lemma_group_place(after, g.id);
        lemma_members_of_kept(t, id, g.id, i);
    }
}

/// The members of a group outside an event are untouched when the members
/// under that event are taken away.
proof fn lemma_members_of_kept(t: Tables, event_id: Seq<char>, group_id: i64, at: int)
    requires
        t.wf(),
        0 <= at < t.groups.len(),
        t.groups[at].id == group_id,
        t.groups[at].event_id != event_id,
    ensures
        members_of(members_beyond(t.members, t.groups, event_id), group_id)
            == members_of(t.members, group_id),
{
    assert(!owns(t.groups, event_id, group_id));
    lemma_filter_twice(
        t.members,
        |m: MemberView| !owns(t.groups, event_id, m.group_id),
        |m: MemberView| m.group_id == group_id,
    );
}

/// Adding a member succeeds only where the group then has one member
/// more and no more than the limit of its event allows. A group that has
/// reached the limit is refused, and nothing changes.
pub proof fn law_add_member_respects_limit(t: Tables, request: MemberRequestView)
    requires
        t.wf(),
    ensures
        rules::create_member(t, request).1 is Ok ==> {
            let after = rules::create_member(t, request).0;
            &&& t.group(request.group_id) is Some
            &&& t.event(t.group(request.group_id).unwrap().event_id) is Some
            &&& after.member_count(request.group_id) == t.member_count(request.group_id) + 1
            &&& after.member_count(request.group_id) <= t.event(
                t.group(request.group_id).unwrap().event_id,
            ).unwrap().group_size_limit
        },
        t.group(request.group_id) matches Some(group) ==> (group.accepts_others ==> (t.event(
            group.event_id,
        ) matches Some(event) ==> (t.member_count(request.group_id) >= event.group_size_limit ==> {
            &&& rules::create_member(t, request).1 == Err::<ResponseView, ErrorView>(
                ErrorView::BadRequest(group_full(event.group_size_limit)),
            )
            &&& rules::create_member(t, request).0 == t
        }))),
{
    if rules::create_member(t, request).1 is Ok {
        let after = rules::create_member(t, request).0;
        reveal(Seq::filter);
        assert(after.members.drop_last() =~= t.members);
    }
}

/// A group that does not accept others is refused a new member, however
/// few members it has, and nothing changes.
pub proof fn law_closed_group_refuses(t: Tables, request: MemberRequestView)
    requires
        t.group(request.group_id) matches Some(group) && !group.accepts_others,
    ensures
        rules::create_member(t, request) == (
            t,
            Err::<ResponseView, ErrorView>(ErrorView::BadRequest(group_closed(request.group_id))),
        ),
{
}

/// After a group's members were replaced, fetching the group gives
/// exactly the members of the request, with their names and addresses, in
/// the order of the request, and the same rows that the update answered
/// with. None of the group's earlier members is among them.
pub proof fn law_update_then_get(t: Tables, id: i64, request: GroupUpdateView)
    requires
        t.wf(),
        rules::update_group(t, id, request).1 is Ok,
    ensures
        ({
            let after = rules::update_group(t, id, request).0;
            let fetched = rules::get_group(after, id).1;
            &&& fetched == rules::update_group(t, id, request).1
            &&& fetched matches Ok(ResponseView::GroupWithMembers(answer))
            &&& answer.members.len() == request.members.len()
            &&& forall|k: int|
                0 <= k < request.members.len() ==> {
                    &&& (#[trigger] answer.members[k]).name == request.members[k].name
                    &&& answer.members[k].email == request.members[k].email
                    &&& answer.members[k].group_id == id
                }
            &&& forall|i: int, k: int|
                0 <= i < t.members.len() && 0 <= k < answer.members.len() ==> (
                #[trigger] t.members[i]).id != (#[trigger] answer.members[k]).id
        }),
{
    let after = rules::update_group(t, id, request).0;
    lemma_group_place(t, id);
    let place = t.group_place(id);
    let added = fresh_members(t.next_member_id, id, request.members);
    assert(after.groups[place].id == id);
    assert(is_first_group(after.groups, id, place));
    let kept = members_outside(t.members, id);
    lemma_filter_nothing(kept, |m: MemberView| m.group_id == id);
    lemma_filter_all(added, |m: MemberView| m.group_id == id);
    assert forall|i: int, k: int| 0 <= i < t.members.len() && 0 <= k < added.len() implies (
    #[trigger] t.members[i]).id != (#[trigger] added[k]).id by {
    }
}

/// The groups of an event are listed each with exactly its own members.
pub proof fn law_roster_is_exact(t: Tables, event_id: Seq<char>)
    requires
        t.wf(),
        t.has_event(event_id),
    ensures
        rules::list_event_groups(t, event_id).1 matches Ok(ResponseView::GroupsWithMembers(roster))
            && roster.len() == groups_of(t.groups, event_id).len() && forall|i: int|
            0 <= i < roster.len() ==> #[trigger] roster[i] == (GroupWithMembersView {
                group: groups_of(t.groups, event_id)[i],
                members: members_of(t.members, groups_of(t.groups, event_id)[i].id),
            }),
{
    let groups = groups_of(t.groups, event_id);
    let members = members_under(t.members, t.groups, event_id);
    let roster = attach(groups, members);
    lemma_filter_items(t.groups, |g: GroupView| g.event_id == event_id);
    lemma_groups_filter(
        t.groups,
        t.next_group_id,
        |g: GroupView| g.event_id == event_id,
    );
    assert forall|i: int| 0 <= i < roster.len() implies #[trigger] roster[i] == (
    GroupWithMembersView { group: groups[i], members: members_of(t.members, groups[i].id) }) by {
        assert(!seen_before(groups, i));
        let gid = groups[i].id;
        lemma_filter_twice(
            t.members,
            |m: MemberView| owns(t.groups, event_id, m.group_id),
            |m: MemberView| m.group_id == gid,
        );
    }
}

/// Putting a row in keeps every event that stood there.
proof fn lemma_insert_keeps_events(events: Seq<EventView>, at: int, row: EventView, id: Seq<char>)
    requires
        0 <= at <= events.len(),
        holds_event(events, id) || row.id == id,
    ensures
        holds_event(events.insert(at, row), id),
{
    let after = events.insert(at, row);
    if row.id == id {
        assert(after[at].id == id);
    } else {
        let i = choose|i: int| 0 <= i < events.len() && (#[trigger] events[i]).id == id;
        let j = if i < at { i } else { i + 1 };
        assert(after[j] == events[i]);
    }
}

/// Putting a row in keeps every group that stood there.
proof fn lemma_insert_keeps_groups(groups: Seq<GroupView>, at: int, row: GroupView, id: i64)
    requires
        0 <= at <= groups.len(),
        holds_group(groups, id) || row.id == id,
    ensures
        holds_group(groups.insert(at, row), id),
{
    let after = groups.insert(at, row);
    if row.id == id {
        assert(after[at].id == id);
    } else {
        let i = choose|i: int| 0 <= i < groups.len() && (#[trigger] groups[i]).id == id;
        let j = if i < at { i } else { i + 1 };
        assert(after[j] == groups[i]);
    }
}

proof fn lemma_create_event_orphans_nothing(
    t: Tables,
    id: Seq<char>,
    fields: EventFieldsView,
    now: Timestamp,
)
    requires
        t.consistent(),
    ensures
        rules::create_event(t, id, fields, now).0.consistent(),
{
    let after = rules::create_event(t, id, fields, now).0;
    if !t.has_event(id) {
        let row = new_event(id, fields, now);
        lemma_event_slot_exists(t.events, row.date_time);
        let at = choose|at: int| is_event_slot(t.events, row.date_time, at);
        assert forall|i: int| 0 <= i < after.groups.len() implies holds_event(
            after.events,
            (#[trigger] after.groups[i]).event_id,
        ) by {
            lemma_insert_keeps_events(t.events, at, row, t.groups[i].event_id);
        }
    }
}

proof fn lemma_update_event_orphans_nothing(
    t: Tables,
    id: Seq<char>,
    fields: EventFieldsView,
)
    requires
        t.consistent(),
    ensures
        rules::update_event(t, id, fields).0.consistent(),
{
    let after = rules::update_event(t, id, fields).0;
    if t.has_event(id) {
        lemma_event_place(t, id);
        let place = t.event_place(id);
        let row = changed_event(t.events[place], fields);
        let rest = t.events.remove(place);
        lemma_event_slot_exists(rest, row.date_time);
        let at = choose|at: int| is_event_slot(rest, row.date_time, at);
        assert forall|i: int| 0 <= i < after.groups.len() implies holds_event(
            after.events,
            (#[trigger] after.groups[i]).event_id,
        ) by {
            let wanted = t.groups[i].event_id;
            let k = choose|k: int| 0 <= k < t.events.len() && (#[trigger] t.events[k]).id == wanted;
            if k != place {
                let j = if k < place { k } else { k - 1 };
                assert(rest[j] == t.events[k]);
            }
            lemma_insert_keeps_events(rest, at, row, wanted);
        }
    }
}

proof fn lemma_delete_event_orphans_nothing(t: Tables, id: Seq<char>)
    requires
        t.consistent(),
    ensures
        rules::delete_event(t, id).0.consistent(),
{
    if t.has_event(id) {
        lemma_filter_items(t.events, |e: EventView| e.id != id);
        lemma_filter_items(t.groups, |g: GroupView| g.event_id != id);
        lemma_filter_items(t.members, |m: MemberView| !owns(t.groups, id, m.group_id));
    }
}

proof fn lemma_create_group_orphans_nothing(
    t: Tables,
    request: NewGroupView,
    now: Timestamp,
)
    requires
        t.consistent(),
    ensures
        rules::create_group(t, request, now).0.consistent(),
{
    let after = rules::create_group(t, request, now).0;
    if rules::create_group(t, request, now).1 is Ok {
        let group = new_group(
            t.next_group_id,
            request.event_id,
            request.fields(),
            now,
        );
        lemma_group_slot_exists(t.groups, group.created_at);
        let at = choose|at: int| is_group_slot(t.groups, group.created_at, at);
        assert forall|i: int| 0 <= i < after.members.len() implies holds_group(
            after.groups,
            (#[trigger] after.members[i]).group_id,
        ) by {
            lemma_insert_keeps_groups(t.groups, at, group, after.members[i].group_id);
        }
    }
}

proof fn lemma_update_group_orphans_nothing(t: Tables, id: i64, request: GroupUpdateView)
    requires
        t.consistent(),
    ensures
        rules::update_group(t, id, request).0.consistent(),
{
    let after = rules::update_group(t, id, request).0;
    if rules::update_group(t, id, request).1 is Ok {
        lemma_group_place(t, id);
        let place = t.group_place(id);
        lemma_filter_items(t.members, |m: MemberView| m.group_id != id);
        assert forall|i: int| 0 <= i < after.members.len() implies holds_group(
            after.groups,
            (#[trigger] after.members[i]).group_id,
        ) by {
            let kept = members_outside(t.members, id);
            let wanted = after.members[i].group_id;
            if i < kept.len() {
                let k = choose|k: int|
                    0 <= k < t.groups.len() && (#[trigger] t.groups[k]).id == wanted;
                assert(after.groups[k].id == wanted);
            } else {
                assert(after.groups[place].id == wanted);
            }
        }
    }
}

proof fn lemma_delete_group_orphans_nothing(t: Tables, id: i64)
    requires
        t.consistent(),
    ensures
        rules::delete_group(t, id).0.consistent(),
{
    if t.has_group(id) {
        lemma_filter_items(t.groups, |g: GroupView| g.id != id);
        lemma_filter_items(t.members, |m: MemberView| m.group_id != id);
    }
}

proof fn lemma_create_member_orphans_nothing(t: Tables, request: MemberRequestView)
    requires
        t.consistent(),
    ensures
        rules::create_member(t, request).0.consistent(),
{
}

proof fn lemma_delete_member_orphans_nothing(t: Tables, id: i64)
    requires
        t.consistent(),
    ensures
        rules::delete_member(t, id).0.consistent(),
{
    if t.has_member(id) {
        lemma_filter_items(t.members, |m: MemberView| m.id != id);
    }
}

/// No operation leaves an orphan behind: where every group had its event
/// and every member its group before, they have them afterwards.
pub proof fn law_nothing_is_orphaned(t: Tables, operation: OperationView, now: Timestamp)
    requires
        t.consistent(),
    ensures
        rules::result(t, operation, now).0.consistent(),
{
    match operation {
        OperationView::CreateEvent { id, fields } => lemma_create_event_orphans_nothing(
            t,
            id,
            fields,
            now,
        ),
        OperationView::UpdateEvent(id, fields) => lemma_update_event_orphans_nothing(t, id, fields),
        OperationView::DeleteEvent(id) => lemma_delete_event_orphans_nothing(t, id),
        OperationView::CreateGroup(request) => lemma_create_group_orphans_nothing(t, request, now),
        OperationView::UpdateGroup(id, request) => lemma_update_group_orphans_nothing(
            t,
            id,
            request,
        ),
        OperationView::DeleteGroup(id) => lemma_delete_group_orphans_nothing(t, id),
        OperationView::CreateMember(request) => lemma_create_member_orphans_nothing(t, request),
        OperationView::DeleteMember(id) => lemma_delete_member_orphans_nothing(t, id),
        _ => {},
    }
}

} // verus!
