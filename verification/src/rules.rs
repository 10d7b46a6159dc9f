//! What every operation amounts to: the answer it gives and the tables it
//! leaves, stated at once, without statements and replies.
//!
//! An operation that fails leaves the tables as they were.

use crate::assemble::{attach, members_of};
use crate::error::ErrorView;
use crate::model::{
    EventFieldsView, EventWithGroupsView, GroupUpdateView, GroupWithMembersView, MemberRequestView,
    MemberView, NewGroupView, NewMemberView, Timestamp,
};
use crate::paging::Pagination;
use crate::protocol::{OperationView, OutcomeView, ResponseView};
use crate::store::{
    Tables, changed_event, changed_group, events_with, events_without, groups_of, groups_outside,
    groups_without, members_beyond, members_outside, members_under, members_without, new_event,
    new_group, new_member, window,
};
use crate::text::{
    bad_page, duplicate_event, event_not_found, group_closed, group_full, group_not_found,
    ids_exhausted, member_not_found, missing_row, negative_limit,
};
use vstd::prelude::*;

verus! {

/// What an operation comes to: the tables afterwards and the outcome.
pub type Ending = (Tables, OutcomeView);

/// The rows that storing `members` for the group `group_id` adds, the
/// first of them under the id `first_id` and each next one under the next
/// id.
pub open spec fn fresh_members(first_id: i64, group_id: i64, members: Seq<NewMemberView>) -> Seq<
    MemberView,
> {
    Seq::new(members.len(), |k: int| new_member((first_id + k) as i64, group_id, members[k]))
}

/// There are fresh ids for `count` more members.
pub open spec fn has_member_ids(t: Tables, count: nat) -> bool {
    t.next_member_id + count <= i64::MAX
}

/// A page of events, latest first. An invalid page is refused.
pub open spec fn list_events(t: Tables, page: Pagination) -> Ending {
    if page.valid() {
        (
            t,
            Ok(
                ResponseView::Events(
                    window(t.events, page.window_of().limit, page.window_of().offset),
                ),
            ),
        )
    } else {
        (t, Err(ErrorView::ValidationError(bad_page())))
    }
}

/// A new event under `id`, stamped `now`. A limit below zero is refused;
/// an id that is taken is the store's failure.
pub open spec fn create_event(
    t: Tables,
    id: Seq<char>,
    fields: EventFieldsView,
    now: Timestamp,
) -> Ending {
    if fields.group_size_limit < 0 {
        (t, Err(ErrorView::ValidationError(negative_limit())))
    } else if t.has_event(id) {
        (t, Err(ErrorView::Database(duplicate_event())))
    } else {
        let row = new_event(id, fields, now);
        (t.with_events(events_with(t.events, row)), Ok(ResponseView::Event(row)))
    }
}

/// One event with its groups, latest first, without their members.
pub open spec fn get_event(t: Tables, id: Seq<char>) -> Ending {
    match t.event(id) {
        Some(event) => (
            t,
            Ok(
                ResponseView::EventWithGroups(
                    EventWithGroupsView { event, groups: groups_of(t.groups, id) },
                ),
            ),
        ),
        None => (t, Err(ErrorView::NotFound(event_not_found(id)))),
    }
}

/// The fields of one event replaced. The event keeps its id and the time
/// it was created, and moves to where its new date belongs. A limit below
/// zero is refused.
pub open spec fn update_event(t: Tables, id: Seq<char>, fields: EventFieldsView) -> Ending {
    if fields.group_size_limit < 0 {
        (t, Err(ErrorView::ValidationError(negative_limit())))
    } else {
        match t.event(id) {
            Some(old) => {
                let row = changed_event(old, fields);
                let rest = t.events.remove(t.event_place(id));
                (t.with_events(events_with(rest, row)), Ok(ResponseView::Event(row)))
            },
            None => (t, Err(ErrorView::NotFound(event_not_found(id)))),
        }
    }
}

/// One event removed, with its groups and the members of its groups.
pub open spec fn delete_event(t: Tables, id: Seq<char>) -> Ending {
    if t.has_event(id) {
        (
            Tables {
                events: events_without(t.events, id),
                groups: groups_outside(t.groups, id),
                members: members_beyond(t.members, t.groups, id),
                ..t
            },
            Ok(ResponseView::NoContent),
        )
    } else {
        (t, Err(ErrorView::NotFound(event_not_found(id))))
    }
}

/// A page of groups, latest first. An invalid page is refused.
pub open spec fn list_groups(t: Tables, page: Pagination) -> Ending {
    if page.valid() {
        (
            t,
            Ok(
                ResponseView::Groups(
                    window(t.groups, page.window_of().limit, page.window_of().offset),
                ),
            ),
        )
    } else {
        (t, Err(ErrorView::ValidationError(bad_page())))
    }
}

/// A new group under an existing event, stamped `now`, with all the
/// members of the request, however many and whether or not the group
/// accepts others. Without fresh ids for the group and every member,
/// nothing is stored.
pub open spec fn create_group(t: Tables, request: NewGroupView, now: Timestamp) -> Ending {
    if !t.has_event(request.event_id) {
        (t, Err(ErrorView::NotFound(event_not_found(request.event_id))))
    } else if t.next_group_id == i64::MAX || !has_member_ids(t, request.members.len()) {
        (t, Err(ErrorView::Database(ids_exhausted())))
    } else {
        let group = new_group(t.next_group_id, request.event_id, request.fields(), now);
        let grown = t.with_new_group(group);
        (
            Tables {
                members: t.members + fresh_members(t.next_member_id, group.id, request.members),
                next_member_id: (t.next_member_id + request.members.len()) as i64,
                ..grown
            },
            Ok(ResponseView::Group(group)),
        )
    }
}

/// One group with its members.
pub open spec fn get_group(t: Tables, id: i64) -> Ending {
    match t.group(id) {
        Some(group) => (
            t,
            Ok(
                ResponseView::GroupWithMembers(
                    GroupWithMembersView { group, members: members_of(t.members, id) },
                ),
            ),
        ),
        None => (t, Err(ErrorView::NotFound(group_not_found(id)))),
    }
}

/// The settable fields of one group replaced, and all of its members
/// replaced by those of the request, in the order of the request. The
/// answer holds the group and exactly the new member rows. Without fresh
/// ids for every member, nothing is changed.
pub open spec fn update_group(t: Tables, id: i64, request: GroupUpdateView) -> Ending {
    match t.group(id) {
        Some(old) => if !has_member_ids(t, request.members.len()) {
            (t, Err(ErrorView::Database(ids_exhausted())))
        } else {
            let group = changed_group(old, request.fields());
            let added = fresh_members(t.next_member_id, id, request.members);
            (
                Tables {
                    groups: t.groups.update(t.group_place(id), group),
                    members: members_outside(t.members, id) + added,
                    next_member_id: (t.next_member_id + request.members.len()) as i64,
                    ..t
                },
                Ok(ResponseView::GroupWithMembers(GroupWithMembersView { group, members: added })),
            )
        },
        None => (t, Err(ErrorView::NotFound(group_not_found(id)))),
    }
}

/// One group removed, with its members.
pub open spec fn delete_group(t: Tables, id: i64) -> Ending {
    if t.has_group(id) {
        (
            Tables {
                groups: groups_without(t.groups, id),
                members: members_outside(t.members, id),
                ..t
            },
            Ok(ResponseView::NoContent),
        )
    } else {
        (t, Err(ErrorView::NotFound(group_not_found(id))))
    }
}

/// The groups of one event, latest first, each with its members.
pub open spec fn list_event_groups(t: Tables, event_id: Seq<char>) -> Ending {
    if t.has_event(event_id) {
        (
            t,
            Ok(
                ResponseView::GroupsWithMembers(
                    attach(
                        groups_of(t.groups, event_id),
                        members_under(t.members, t.groups, event_id),
                    ),
                ),
            ),
        )
    } else {
        (t, Err(ErrorView::NotFound(event_not_found(event_id))))
    }
}

/// One member added to an existing group. The group must accept others
/// and must have fewer members than the limit of its event. A group
/// whose event is gone is the store's failure.
pub open spec fn create_member(t: Tables, request: MemberRequestView) -> Ending {
    match t.group(request.group_id) {
        Some(group) => if !group.accepts_others {
            (t, Err(ErrorView::BadRequest(group_closed(request.group_id))))
        } else {
            match t.event(group.event_id) {
                Some(event) => if t.member_count(request.group_id) >= event.group_size_limit {
                    (t, Err(ErrorView::BadRequest(group_full(event.group_size_limit))))
                } else if !has_member_ids(t, 1) {
                    (t, Err(ErrorView::Database(ids_exhausted())))
                } else {
                    let row = new_member(
                        t.next_member_id,
                        request.group_id,
                        NewMemberView { name: request.name, email: request.email },
                    );
                    (t.with_new_member(row), Ok(ResponseView::Member(row)))
                },
                None => (t, Err(ErrorView::Database(missing_row()))),
            }
        },
        None => (t, Err(ErrorView::NotFound(group_not_found(request.group_id)))),
    }
}

/// One member removed.
pub open spec fn delete_member(t: Tables, id: i64) -> Ending {
    if t.has_member(id) {
        (t.with_members(members_without(t.members, id)), Ok(ResponseView::NoContent))
    } else {
        (t, Err(ErrorView::NotFound(member_not_found(id))))
    }
}

/// The members of one group.
pub open spec fn list_group_members(t: Tables, group_id: i64) -> Ending {
    if t.has_group(group_id) {
        (t, Ok(ResponseView::Members(members_of(t.members, group_id))))
    } else {
        (t, Err(ErrorView::NotFound(group_not_found(group_id))))
    }
}

/// What any operation comes to.
pub open spec fn result(t: Tables, operation: OperationView, now: Timestamp) -> Ending {
    match operation {
        OperationView::ListEvents(page) => list_events(t, page),
        OperationView::CreateEvent { id, fields } => create_event(t, id, fields, now),
        OperationView::GetEvent(id) => get_event(t, id),
        OperationView::UpdateEvent(id, fields) => update_event(t, id, fields),
        OperationView::DeleteEvent(id) => delete_event(t, id),
        OperationView::ListGroups(page) => list_groups(t, page),
        OperationView::CreateGroup(request) => create_group(t, request, now),
        OperationView::GetGroup(id) => get_group(t, id),
        OperationView::UpdateGroup(id, request) => update_group(t, id, request),
        OperationView::DeleteGroup(id) => delete_group(t, id),
        OperationView::ListEventGroups(id) => list_event_groups(t, id),
        OperationView::CreateMember(request) => create_member(t, request),
        OperationView::DeleteMember(id) => delete_member(t, id),
        OperationView::ListGroupMembers(id) => list_group_members(t, id),
    }
}

} // verus!
