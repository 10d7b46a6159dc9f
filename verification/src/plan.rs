//! The plan of every operation, as a function: given how far the
//! operation has come and what the store replied last, what it does next.
//!
//! An operation is a short conversation with the store. It sends one
//! statement at a time and decides from each reply. It either sends the
//! next statement or finishes with its outcome. Operations that write more
//! than one row open a transaction first and commit last; every check that
//! guards a write is made inside that transaction.

use crate::assemble::attach;
use crate::error::ErrorView;
use crate::model::{
    EventFieldsView, EventView, EventWithGroupsView, GroupUpdateView, GroupView,
    GroupWithMembersView, MemberRequestView, MemberView, NewGroupView, NewMemberView,
};
use crate::paging::Pagination;
use crate::protocol::{ActionView, OperationView, ReplyView, ResponseView, StatementView};
use crate::text::{
    bad_page, event_not_found, group_closed, group_full, group_not_found, member_not_found,
    missing_row, negative_limit, unexpected_reply,
};
use vstd::prelude::*;

verus! {

/// How far an operation has come: what it is waiting for, and what it has
/// to remember until then.
pub enum PhaseView {
    /// Nothing has been sent yet.
    Start,
    /// `Begin` was sent.
    Opening,
    /// An existence question was sent.
    Probing,
    /// The row or list that the operation is about was asked for, or is
    /// being written and given back.
    Reading,
    /// The changed fields of a row were sent.
    Updating,
    /// The event that owns a group was asked for.
    ReadingEvent,
    /// The members of a group are being counted; the number kept is the
    /// limit they are held against.
    Counting(i64),
    /// One member is being stored.
    Inserting,
    /// The groups of the event kept here were asked for.
    ReadingGroups(EventView),
    /// The members of the group kept here were asked for.
    ReadingMembers(GroupView),
    /// The members of all the groups kept here were asked for.
    ReadingRoster(Seq<GroupView>),
    /// Members are being removed.
    RemovingMembers,
    /// Groups are being removed.
    RemovingGroups,
    /// The row that the operation is about is being removed.
    RemovingRow,
    /// The present members of the group kept here are being removed, to
    /// make room for new ones.
    Replacing(GroupView),
    /// The members of a request are being stored one by one; `added` are
    /// the rows stored so far.
    Adding { group: GroupView, added: Seq<MemberView> },
    /// `Commit` was sent; the answer kept here is given once it is through.
    Closing(ResponseView),
    /// The operation is over.
    Finished,
}

pub type Move = (PhaseView, ActionView);

/// Send `statement` and wait in `phase`.
pub open spec fn send(phase: PhaseView, statement: StatementView) -> Move {
    (phase, ActionView::Run(statement))
}

/// End with a success.
pub open spec fn succeed(response: ResponseView) -> Move {
    (PhaseView::Finished, ActionView::Finish(Ok(response)))
}

/// End with a failure.
pub open spec fn fail(error: ErrorView) -> Move {
    (PhaseView::Finished, ActionView::Finish(Err(error)))
}

/// End because of a reply that the plan has no use for. A failure that
/// the store reported is passed on unchanged as a database error; any other
/// reply is a fault of the server.
pub open spec fn give_up(reply: ReplyView) -> Move {
    match reply {
        ReplyView::Failed(why) => fail(ErrorView::Database(why)),
        _ => fail(ErrorView::InternalServerError(unexpected_reply())),
    }
}

/// List the events of one page, latest first.
pub open spec fn list_events(page: Pagination, phase: PhaseView, reply: ReplyView) -> Move {
    match (phase, reply) {
        (PhaseView::Start, _) => if page.valid() {
            send(
                PhaseView::Reading,
                StatementView::ListEvents {
                    limit: page.window_of().limit,
                    offset: page.window_of().offset,
                },
            )
        } else {
            fail(ErrorView::ValidationError(bad_page()))
        },
        (PhaseView::Reading, ReplyView::Events(events)) => succeed(ResponseView::Events(events)),
        _ => give_up(reply),
    }
}

/// Store a new event under `id`. A limit below zero is refused before
/// anything is sent.
pub open spec fn create_event(
    id: Seq<char>,
    fields: EventFieldsView,
    phase: PhaseView,
    reply: ReplyView,
) -> Move {
    match (phase, reply) {
        (PhaseView::Start, _) => if fields.group_size_limit < 0 {
            fail(ErrorView::ValidationError(negative_limit()))
        } else {
            send(PhaseView::Reading, StatementView::InsertEvent { id, fields })
        },
        (PhaseView::Reading, ReplyView::Event(Some(event))) => succeed(ResponseView::Event(event)),
        (PhaseView::Reading, ReplyView::Event(None)) => fail(ErrorView::Database(missing_row())),
        _ => give_up(reply),
    }
}

/// Fetch one event and, in a second statement, its groups.
pub open spec fn get_event(id: Seq<char>, phase: PhaseView, reply: ReplyView) -> Move {
    match (phase, reply) {
        (PhaseView::Start, _) => send(PhaseView::Reading, StatementView::SelectEvent { id }),
        (PhaseView::Reading, ReplyView::Event(None)) => fail(
            ErrorView::NotFound(event_not_found(id)),
        ),
        (PhaseView::Reading, ReplyView::Event(Some(event))) => send(
            PhaseView::ReadingGroups(event),
            StatementView::SelectGroupsOfEvent { event_id: id },
        ),
        (PhaseView::ReadingGroups(event), ReplyView::Groups(groups)) => succeed(
            ResponseView::EventWithGroups(EventWithGroupsView { event, groups }),
        ),
        _ => give_up(reply),
    }
}

/// Replace the fields of one event. A limit below zero is refused before
/// anything is sent.
pub open spec fn update_event(
    id: Seq<char>,
    fields: EventFieldsView,
    phase: PhaseView,
    reply: ReplyView,
) -> Move {
    match (phase, reply) {
        (PhaseView::Start, _) => if fields.group_size_limit < 0 {
            fail(ErrorView::ValidationError(negative_limit()))
        } else {
            send(PhaseView::Reading, StatementView::UpdateEvent { id, fields })
        },
        (PhaseView::Reading, ReplyView::Event(None)) => fail(
            ErrorView::NotFound(event_not_found(id)),
        ),
        (PhaseView::Reading, ReplyView::Event(Some(event))) => succeed(ResponseView::Event(event)),
        _ => give_up(reply),
    }
}

/// Remove one event with everything it owns: first the members of its
/// groups, then its groups, then the event itself, in one transaction.
pub open spec fn delete_event(id: Seq<char>, phase: PhaseView, reply: ReplyView) -> Move {
    match (phase, reply) {
        (PhaseView::Start, _) => send(PhaseView::Opening, StatementView::Begin),
        (PhaseView::Opening, ReplyView::Done) => send(
            PhaseView::Probing,
            StatementView::EventExists { id },
        ),
        (PhaseView::Probing, ReplyView::Flag(false)) => fail(
            ErrorView::NotFound(event_not_found(id)),
        ),
        (PhaseView::Probing, ReplyView::Flag(true)) => send(
            PhaseView::RemovingMembers,
            StatementView::DeleteMembersOfEvent { event_id: id },
        ),
        (PhaseView::RemovingMembers, ReplyView::Done) => send(
            PhaseView::RemovingGroups,
            StatementView::DeleteGroupsOfEvent { event_id: id },
        ),
        (PhaseView::RemovingGroups, ReplyView::Done) => send(
            PhaseView::RemovingRow,
            StatementView::DeleteEvent { id },
        ),
        (PhaseView::RemovingRow, ReplyView::Done) => send(
            PhaseView::Closing(ResponseView::NoContent),
            StatementView::Commit,
        ),
        (PhaseView::Closing(response), ReplyView::Done) => succeed(response),
        _ => give_up(reply),
    }
}

/// List the groups of one page, latest first.
pub open spec fn list_groups(page: Pagination, phase: PhaseView, reply: ReplyView) -> Move {
    match (phase, reply) {
        (PhaseView::Start, _) => if page.valid() {
            send(
                PhaseView::Reading,
                StatementView::ListGroups {
                    limit: page.window_of().limit,
                    offset: page.window_of().offset,
                },
            )
        } else {
            fail(ErrorView::ValidationError(bad_page()))
        },
        (PhaseView::Reading, ReplyView::Groups(groups)) => succeed(ResponseView::Groups(groups)),
        _ => give_up(reply),
    }
}

/// With `added` of the requested members stored: store the next one for
/// the group `group_id`, or, when none is left, commit and answer with
/// `response`.
pub open spec fn add_next(
    group: GroupView,
    added: Seq<MemberView>,
    members: Seq<NewMemberView>,
    group_id: i64,
    response: ResponseView,
) -> Move {
    if added.len() < members.len() {
        send(
            PhaseView::Adding { group, added },
            StatementView::InsertMember { group_id, member: members[added.len() as int] },
        )
    } else {
        send(PhaseView::Closing(response), StatementView::Commit)
    }
}

/// Store a new group and the members it starts with, in one transaction,
/// after checking that its event exists. The members are neither counted
/// against the event's limit nor held against the group's openness.
pub open spec fn create_group(request: NewGroupView, phase: PhaseView, reply: ReplyView) -> Move {
    match (phase, reply) {
        (PhaseView::Start, _) => send(PhaseView::Opening, StatementView::Begin),
        (PhaseView::Opening, ReplyView::Done) => send(
            PhaseView::Probing,
            StatementView::EventExists { id: request.event_id },
        ),
        (PhaseView::Probing, ReplyView::Flag(false)) => fail(
            ErrorView::NotFound(event_not_found(request.event_id)),
        ),
        (PhaseView::Probing, ReplyView::Flag(true)) => send(
            PhaseView::Reading,
            StatementView::InsertGroup { event_id: request.event_id, fields: request.fields() },
        ),
        (PhaseView::Reading, ReplyView::Group(Some(group))) => add_next(
            group,
            Seq::empty(),
            request.members,
            group.id,
            ResponseView::Group(group),
        ),
        (PhaseView::Reading, ReplyView::Group(None)) => fail(ErrorView::Database(missing_row())),
        (PhaseView::Adding { group, added }, ReplyView::Member(member)) => add_next(
            group,
            added.push(member),
            request.members,
            group.id,
            ResponseView::Group(group),
        ),
        (PhaseView::Closing(response), ReplyView::Done) => succeed(response),
        _ => give_up(reply),
    }
}

/// Fetch one group and, in a second statement, its members.
pub open spec fn get_group(id: i64, phase: PhaseView, reply: ReplyView) -> Move {
    match (phase, reply) {
        (PhaseView::Start, _) => send(PhaseView::Reading, StatementView::SelectGroup { id }),
        (PhaseView::Reading, ReplyView::Group(None)) => fail(
            ErrorView::NotFound(group_not_found(id)),
        ),
        (PhaseView::Reading, ReplyView::Group(Some(group))) => send(
            PhaseView::ReadingMembers(group),
            StatementView::SelectMembersOfGroup { group_id: id },
        ),
        (PhaseView::ReadingMembers(group), ReplyView::Members(members)) => succeed(
            ResponseView::GroupWithMembers(GroupWithMembersView { group, members }),
        ),
        _ => give_up(reply),
    }
}

/// Replace the settable fields of one group and all of its members, in
/// one transaction: fetch the group, write its fields, remove its present
/// members, store the requested ones in the order of the request, commit.
/// The answer holds the stored rows in that order.
pub open spec fn update_group(
    id: i64,
    request: GroupUpdateView,
    phase: PhaseView,
    reply: ReplyView,
) -> Move {
    match (phase, reply) {
        (PhaseView::Start, _) => send(PhaseView::Opening, StatementView::Begin),
        (PhaseView::Opening, ReplyView::Done) => send(
            PhaseView::Reading,
            StatementView::SelectGroup { id },
        ),
        (PhaseView::Reading, ReplyView::Group(None)) => fail(
            ErrorView::NotFound(group_not_found(id)),
        ),
        (PhaseView::Reading, ReplyView::Group(Some(_))) => send(
            PhaseView::Updating,
            StatementView::UpdateGroup { id, fields: request.fields() },
        ),
        (PhaseView::Updating, ReplyView::Group(Some(group))) => send(
            PhaseView::Replacing(group),
            StatementView::DeleteMembersOfGroup { group_id: id },
        ),
        (PhaseView::Updating, ReplyView::Group(None)) => fail(ErrorView::Database(missing_row())),
        (PhaseView::Replacing(group), ReplyView::Done) => add_next(
            group,
            Seq::empty(),
            request.members,
            id,
            ResponseView::GroupWithMembers(
                GroupWithMembersView { group, members: Seq::empty() },
            ),
        ),
        (PhaseView::Adding { group, added }, ReplyView::Member(member)) => add_next(
            group,
            added.push(member),
            request.members,
            id,
            ResponseView::GroupWithMembers(
                GroupWithMembersView { group, members: added.push(member) },
            ),
        ),
        (PhaseView::Closing(response), ReplyView::Done) => succeed(response),
        _ => give_up(reply),
    }
}

/// Remove one group with its members, in one transaction.
pub open spec fn delete_group(id: i64, phase: PhaseView, reply: ReplyView) -> Move {
    match (phase, reply) {
        (PhaseView::Start, _) => send(PhaseView::Opening, StatementView::Begin),
        (PhaseView::Opening, ReplyView::Done) => send(
            PhaseView::Probing,
            StatementView::GroupExists { id },
        ),
        (PhaseView::Probing, ReplyView::Flag(false)) => fail(
            ErrorView::NotFound(group_not_found(id)),
        ),
        (PhaseView::Probing, ReplyView::Flag(true)) => send(
            PhaseView::RemovingMembers,
            StatementView::DeleteMembersOfGroup { group_id: id },
        ),
        (PhaseView::RemovingMembers, ReplyView::Done) => send(
            PhaseView::RemovingRow,
            StatementView::DeleteGroup { id },
        ),
        (PhaseView::RemovingRow, ReplyView::Done) => send(
            PhaseView::Closing(ResponseView::NoContent),
            StatementView::Commit,
        ),
        (PhaseView::Closing(response), ReplyView::Done) => succeed(response),
        _ => give_up(reply),
    }
}

/// List the groups of one event, each with its members: one statement
/// for the groups and, unless there are none, one for all their members.
pub open spec fn list_event_groups(event_id: Seq<char>, phase: PhaseView, reply: ReplyView) -> Move {
    match (phase, reply) {
        (PhaseView::Start, _) => send(PhaseView::Probing, StatementView::EventExists { id: event_id }),
        (PhaseView::Probing, ReplyView::Flag(false)) => fail(
            ErrorView::NotFound(event_not_found(event_id)),
        ),
        (PhaseView::Probing, ReplyView::Flag(true)) => send(
            PhaseView::Reading,
            StatementView::SelectGroupsOfEvent { event_id },
        ),
        (PhaseView::Reading, ReplyView::Groups(groups)) => if groups.len() == 0 {
            succeed(ResponseView::GroupsWithMembers(Seq::empty()))
        } else {
            send(PhaseView::ReadingRoster(groups), StatementView::SelectMembersOfEvent { event_id })
        },
        (PhaseView::ReadingRoster(groups), ReplyView::Members(members)) => succeed(
            ResponseView::GroupsWithMembers(attach(groups, members)),
        ),
        _ => give_up(reply),
    }
}

/// A group with `count` members has room for one more under the limit
/// `limit`.
pub open spec fn has_room(count: i64, limit: i64) -> bool {
    count < limit
}

/// Add one member to an existing group, in one transaction. The group
/// must accept others, and it must have fewer members than its event's
/// limit allows.
pub open spec fn create_member(request: MemberRequestView, phase: PhaseView, reply: ReplyView) -> Move {
    match (phase, reply) {
        (PhaseView::Start, _) => send(PhaseView::Opening, StatementView::Begin),
        (PhaseView::Opening, ReplyView::Done) => send(
            PhaseView::Reading,
            StatementView::SelectGroup { id: request.group_id },
        ),
        (PhaseView::Reading, ReplyView::Group(None)) => fail(
            ErrorView::NotFound(group_not_found(request.group_id)),
        ),
        (PhaseView::Reading, ReplyView::Group(Some(group))) => if !group.accepts_others {
            fail(ErrorView::BadRequest(group_closed(request.group_id)))
        } else {
            send(PhaseView::ReadingEvent, StatementView::SelectEvent { id: group.event_id })
        },
        (PhaseView::ReadingEvent, ReplyView::Event(Some(event))) => send(
            PhaseView::Counting(event.group_size_limit),
            StatementView::CountMembersOfGroup { group_id: request.group_id },
        ),
        (PhaseView::ReadingEvent, ReplyView::Event(None)) => fail(
            ErrorView::Database(missing_row()),
        ),
        (PhaseView::Counting(limit), ReplyView::Count(count)) => if !has_room(count, limit) {
            fail(ErrorView::BadRequest(group_full(limit)))
        } else {
            send(
                PhaseView::Inserting,
                StatementView::InsertMember {
                    group_id: request.group_id,
                    member: NewMemberView { name: request.name, email: request.email },
                },
            )
        },
        (PhaseView::Inserting, ReplyView::Member(member)) => send(
            PhaseView::Closing(ResponseView::Member(member)),
            StatementView::Commit,
        ),
        (PhaseView::Closing(response), ReplyView::Done) => succeed(response),
        _ => give_up(reply),
    }
}

/// Remove one member.
pub open spec fn delete_member(id: i64, phase: PhaseView, reply: ReplyView) -> Move {
    match (phase, reply) {
        (PhaseView::Start, _) => send(PhaseView::Probing, StatementView::MemberExists { id }),
        (PhaseView::Probing, ReplyView::Flag(false)) => fail(
            ErrorView::NotFound(member_not_found(id)),
        ),
        (PhaseView::Probing, ReplyView::Flag(true)) => send(
            PhaseView::RemovingRow,
            StatementView::DeleteMember { id },
        ),
        (PhaseView::RemovingRow, ReplyView::Done) => succeed(ResponseView::NoContent),
        _ => give_up(reply),
    }
}

/// List the members of one group.
pub open spec fn list_group_members(group_id: i64, phase: PhaseView, reply: ReplyView) -> Move {
    match (phase, reply) {
        (PhaseView::Start, _) => send(PhaseView::Probing, StatementView::GroupExists { id: group_id }),
        (PhaseView::Probing, ReplyView::Flag(false)) => fail(
            ErrorView::NotFound(group_not_found(group_id)),
        ),
        (PhaseView::Probing, ReplyView::Flag(true)) => send(
            PhaseView::Reading,
            StatementView::SelectMembersOfGroup { group_id },
        ),
        (PhaseView::Reading, ReplyView::Members(members)) => succeed(ResponseView::Members(members)),
        _ => give_up(reply),
    }
}

/// What stands in for a reply before the first statement was sent.
pub open spec fn no_reply() -> ReplyView {
    ReplyView::Done
}

/// The next move of any operation.
pub open spec fn next(operation: OperationView, phase: PhaseView, reply: ReplyView) -> Move {
    match operation {
        OperationView::ListEvents(page) => list_events(page, phase, reply),
        OperationView::CreateEvent { id, fields } => create_event(id, fields, phase, reply),
        OperationView::GetEvent(id) => get_event(id, phase, reply),
        OperationView::UpdateEvent(id, fields) => update_event(id, fields, phase, reply),
        OperationView::DeleteEvent(id) => delete_event(id, phase, reply),
        OperationView::ListGroups(page) => list_groups(page, phase, reply),
        OperationView::CreateGroup(request) => create_group(request, phase, reply),
        OperationView::GetGroup(id) => get_group(id, phase, reply),
        OperationView::UpdateGroup(id, request) => update_group(id, request, phase, reply),
        OperationView::DeleteGroup(id) => delete_group(id, phase, reply),
        OperationView::ListEventGroups(id) => list_event_groups(id, phase, reply),
        OperationView::CreateMember(request) => create_member(request, phase, reply),
        OperationView::DeleteMember(id) => delete_member(id, phase, reply),
        OperationView::ListGroupMembers(id) => list_group_members(id, phase, reply),
    }
}

} // verus!
