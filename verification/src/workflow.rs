//! The operations of the registry as resumable workflows.
//!
//! A workflow never touches the store. It names the statement it wants
//! run and decides from the reply it is handed. Whoever drives it runs
//! each statement against the store and hands the reply back, until the
//! workflow finishes with its outcome. Each function here carries out one
//! move of the plan that the module `plan` lays down.

use crate::assemble::attach_members;
use crate::error::AppError;
use crate::model::{
    CreateEventRequest, CreateGroupRequest, CreateMemberRequest, Event, EventWithGroups, Group,
    GroupMember, GroupWithMembers, GroupWithMembersView, MembersForCreateGroupRequest,
    UpdateGroupRequest, copy_text,
};
use crate::paging::Pagination;
use crate::plan;
use crate::plan::PhaseView;
use crate::protocol::{Action, Operation, Reply, Response, ResponseView, Statement};
use crate::seqs::lemma_deep_view_push;
use crate::text::{
    bad_page_text, event_not_found_text, group_closed_text, group_full_text,
    group_not_found_text, member_not_found_text, missing_row_text, negative_limit_text,
    unexpected_reply_text,
};
use vstd::prelude::*;

verus! {

/// How far an operation has come: what it is waiting for, and what it has
/// to remember until then.
#[derive(Debug, PartialEq, Eq)]
pub enum Phase {
    Start,
    Opening,
    Probing,
    Reading,
    Updating,
    ReadingEvent,
    Counting(i64),
    Inserting,
    ReadingGroups(Event),
    ReadingMembers(Group),
    ReadingRoster(Vec<Group>),
    RemovingMembers,
    RemovingGroups,
    RemovingRow,
    Replacing(Group),
    Adding { group: Group, added: Vec<GroupMember> },
    Closing(Response),
    Finished,
}

impl View for Phase {
    type V = PhaseView;

    open spec fn view(&self) -> PhaseView {
        match self {
            Phase::Start => PhaseView::Start,
            Phase::Opening => PhaseView::Opening,
            Phase::Probing => PhaseView::Probing,
            Phase::Reading => PhaseView::Reading,
            Phase::Updating => PhaseView::Updating,
            Phase::ReadingEvent => PhaseView::ReadingEvent,
            Phase::Counting(limit) => PhaseView::Counting(*limit),
            Phase::Inserting => PhaseView::Inserting,
            Phase::ReadingGroups(event) => PhaseView::ReadingGroups(event@),
            Phase::ReadingMembers(group) => PhaseView::ReadingMembers(group@),
            Phase::ReadingRoster(groups) => PhaseView::ReadingRoster(groups.deep_view()),
            Phase::RemovingMembers => PhaseView::RemovingMembers,
            Phase::RemovingGroups => PhaseView::RemovingGroups,
            Phase::RemovingRow => PhaseView::RemovingRow,
            Phase::Replacing(group) => PhaseView::Replacing(group@),
            Phase::Adding { group, added } => PhaseView::Adding {
                group: group@,
                added: added.deep_view(),
            },
            Phase::Closing(response) => PhaseView::Closing(response@),
            Phase::Finished => PhaseView::Finished,
        }
    }
}

/// One move of a workflow: the phase it goes to and what it wants done.
pub type Move = (Phase, Action);

/// The view of a move.
pub open spec fn move_view(m: Move) -> plan::Move {
    (m.0@, m.1@)
}

fn send(phase: Phase, statement: Statement) -> (m: Move)
    ensures
        move_view(m) == plan::send(phase@, statement@),
{
    (phase, Action::Run(statement))
}

fn succeed(response: Response) -> (m: Move)
    ensures
        move_view(m) == plan::succeed(response@),
{
    (Phase::Finished, Action::Finish(Ok(response)))
}

fn fail(error: AppError) -> (m: Move)
    ensures
        move_view(m) == plan::fail(error@),
{
    (Phase::Finished, Action::Finish(Err(error)))
}

fn give_up(reply: Reply) -> (m: Move)
    ensures
        move_view(m) == plan::give_up(reply@),
{
    match reply {
        Reply::Failed(why) => fail(AppError::Database(why)),
        _ => fail(AppError::InternalServerError(unexpected_reply_text())),
    }
}

/// With `added` of the requested members stored: asks for the next one
/// to be stored, or commits. The answer that waits behind the commit is
/// the group alone, or the group with the stored members.
fn add_next(
    group: Group,
    added: Vec<GroupMember>,
    members: &Vec<MembersForCreateGroupRequest>,
    group_id: i64,
    with_members: bool,
) -> (m: Move)
    ensures
        move_view(m) == plan::add_next(
            group@,
            added.deep_view(),
            members.deep_view(),
            group_id,
            if with_members {
                ResponseView::GroupWithMembers(
                    GroupWithMembersView { group: group@, members: added.deep_view() },
                )
            } else {
                ResponseView::Group(group@)
            },
        ),
{
    if added.len() < members.len() {
        let member = members[added.len()].clone();
        send(Phase::Adding { group, added }, Statement::InsertMember { group_id, member })
    } else if with_members {
        send(
            Phase::Closing(Response::GroupWithMembers(GroupWithMembers { group, members: added })),
            Statement::Commit,
        )
    } else {
        send(Phase::Closing(Response::Group(group)), Statement::Commit)
    }
}

/// One move of replacing a group's fields and members.
pub fn update_group(id: i64, request: &UpdateGroupRequest, phase: Phase, reply: Reply) -> (m: Move)
    ensures
        move_view(m) == plan::update_group(id, request@, phase@, reply@),
{
    match (phase, reply) {
        (Phase::Start, _) => send(Phase::Opening, Statement::Begin),
        (Phase::Opening, Reply::Done) => send(Phase::Reading, Statement::SelectGroup { id }),
        (Phase::Reading, Reply::Group(None)) => fail(AppError::NotFound(group_not_found_text(id))),
        (Phase::Reading, Reply::Group(Some(_))) => send(
            Phase::Updating,
            Statement::UpdateGroup { id, fields: request.fields() },
        ),
        (Phase::Updating, Reply::Group(Some(group))) => send(
            Phase::Replacing(group),
            Statement::DeleteMembersOfGroup { group_id: id },
        ),
        (Phase::Updating, Reply::Group(None)) => fail(AppError::Database(missing_row_text())),
        (Phase::Replacing(group), Reply::Done) => {
            let added: Vec<GroupMember> = Vec::new();
            assert(added.deep_view() =~= Seq::empty());
            add_next(group, added, &request.members, id, true)
        },
        (Phase::Adding { group, added }, Reply::Member(member)) => {
            let ghost before = added;
            let mut added = added;
            added.push(member);
            proof {
                lemma_deep_view_push(before, added, member);
            }
            add_next(group, added, &request.members, id, true)
        },
        (Phase::Closing(response), Reply::Done) => succeed(response),
        (_, reply) => give_up(reply),
    }
}

/// One move of listing an event's groups with their members.
pub fn list_event_groups(event_id: &String, phase: Phase, reply: Reply) -> (m: Move)
    ensures
        move_view(m) == plan::list_event_groups(event_id@, phase@, reply@),
{
    match (phase, reply) {
        (Phase::Start, _) => send(Phase::Probing, Statement::EventExists { id: event_id.clone() }),
        (Phase::Probing, Reply::Flag(false)) => fail(
            AppError::NotFound(event_not_found_text(event_id.as_str())),
        ),
        (Phase::Probing, Reply::Flag(true)) => send(
            Phase::Reading,
            Statement::SelectGroupsOfEvent { event_id: event_id.clone() },
        ),
        (Phase::Reading, Reply::Groups(groups)) => {
            if groups.len() == 0 {
                let none: Vec<GroupWithMembers> = Vec::new();
                assert(none.deep_view() =~= Seq::empty());
                succeed(Response::GroupsWithMembers(none))
            } else {
                send(
                    Phase::ReadingRoster(groups),
                    Statement::SelectMembersOfEvent { event_id: event_id.clone() },
                )
            }
        },
        (Phase::ReadingRoster(groups), Reply::Members(members)) => succeed(
            Response::GroupsWithMembers(attach_members(&groups, &members)),
        ),
        (_, reply) => give_up(reply),
    }
}

/// Tells whether a group with `count` members has room for one more
/// under the limit `limit`.
pub fn has_room(count: i64, limit: i64) -> (r: bool)
    ensures
        r == plan::has_room(count, limit),
{
    count < limit
}

/// One move of adding a member to an existing group.
pub fn create_member(request: &CreateMemberRequest, phase: Phase, reply: Reply) -> (m: Move)
    ensures
        move_view(m) == plan::create_member(request@, phase@, reply@),
{
    match (phase, reply) {
        (Phase::Start, _) => send(Phase::Opening, Statement::Begin),
        (Phase::Opening, Reply::Done) => send(
            Phase::Reading,
            Statement::SelectGroup { id: request.group_id },
        ),
        (Phase::Reading, Reply::Group(None)) => fail(
            AppError::NotFound(group_not_found_text(request.group_id)),
        ),
        (Phase::Reading, Reply::Group(Some(group))) => {
            if !group.accepts_others {
                fail(AppError::BadRequest(group_closed_text(request.group_id)))
            } else {
                send(Phase::ReadingEvent, Statement::SelectEvent { id: group.event_id })
            }
        },
        (Phase::ReadingEvent, Reply::Event(Some(event))) => send(
            Phase::Counting(event.group_size_limit),
            Statement::CountMembersOfGroup { group_id: request.group_id },
        ),
        (Phase::ReadingEvent, Reply::Event(None)) => fail(AppError::Database(missing_row_text())),
        (Phase::Counting(limit), Reply::Count(count)) => {
            if !has_room(count, limit) {
                fail(AppError::BadRequest(group_full_text(limit)))
            } else {
                send(
                    Phase::Inserting,
                    Statement::InsertMember {
                        group_id: request.group_id,
                        member: MembersForCreateGroupRequest {
                            name: request.name.clone(),
                            email: copy_text(&request.email),
                        },
                    },
                )
            }
        },
        (Phase::Inserting, Reply::Member(member)) => send(
            Phase::Closing(Response::Member(member)),
            Statement::Commit,
        ),
        (Phase::Closing(response), Reply::Done) => succeed(response),
        (_, reply) => give_up(reply),
    }
}

/// One move of storing a new group with its first members.
pub fn create_group(request: &CreateGroupRequest, phase: Phase, reply: Reply) -> (m: Move)
    ensures
        move_view(m) == plan::create_group(request@, phase@, reply@),
{
    match (phase, reply) {
        (Phase::Start, _) => send(Phase::Opening, Statement::Begin),
        (Phase::Opening, Reply::Done) => send(
            Phase::Probing,
            Statement::EventExists { id: request.event_id.clone() },
        ),
        (Phase::Probing, Reply::Flag(false)) => fail(
            AppError::NotFound(event_not_found_text(request.event_id.as_str())),
        ),
        (Phase::Probing, Reply::Flag(true)) => send(
            Phase::Reading,
            Statement::InsertGroup { event_id: request.event_id.clone(), fields: request.fields() },
        ),
        (Phase::Reading, Reply::Group(Some(group))) => {
            let added: Vec<GroupMember> = Vec::new();
            assert(added.deep_view() =~= Seq::empty());
            let group_id = group.id;
            add_next(group, added, &request.members, group_id, false)
        },
        (Phase::Reading, Reply::Group(None)) => fail(AppError::Database(missing_row_text())),
        (Phase::Adding { group, added }, Reply::Member(member)) => {
            let ghost before = added;
            let mut added = added;
            added.push(member);
            proof {
                lemma_deep_view_push(before, added, member);
            }
            let group_id = group.id;
            add_next(group, added, &request.members, group_id, false)
        },
        (Phase::Closing(response), Reply::Done) => succeed(response),
        (_, reply) => give_up(reply),
    }
}

/// One move of removing an event with its groups and their members.
pub fn delete_event(id: &String, phase: Phase, reply: Reply) -> (m: Move)
    ensures
        move_view(m) == plan::delete_event(id@, phase@, reply@),
{
    match (phase, reply) {
        (Phase::Start, _) => send(Phase::Opening, Statement::Begin),
        (Phase::Opening, Reply::Done) => send(
            Phase::Probing,
            Statement::EventExists { id: id.clone() },
        ),
        (Phase::Probing, Reply::Flag(false)) => fail(
            AppError::NotFound(event_not_found_text(id.as_str())),
        ),
        (Phase::Probing, Reply::Flag(true)) => send(
            Phase::RemovingMembers,
            Statement::DeleteMembersOfEvent { event_id: id.clone() },
        ),
        (Phase::RemovingMembers, Reply::Done) => send(
            Phase::RemovingGroups,
            Statement::DeleteGroupsOfEvent { event_id: id.clone() },
        ),
        (Phase::RemovingGroups, Reply::Done) => send(
            Phase::RemovingRow,
            Statement::DeleteEvent { id: id.clone() },
        ),
        (Phase::RemovingRow, Reply::Done) => send(
            Phase::Closing(Response::NoContent),
            Statement::Commit,
        ),
        (Phase::Closing(response), Reply::Done) => succeed(response),
        (_, reply) => give_up(reply),
    }
}

/// One move of removing a group with its members.
pub fn delete_group(id: i64, phase: Phase, reply: Reply) -> (m: Move)
    ensures
        move_view(m) == plan::delete_group(id, phase@, reply@),
{
    match (phase, reply) {
        (Phase::Start, _) => send(Phase::Opening, Statement::Begin),
        (Phase::Opening, Reply::Done) => send(Phase::Probing, Statement::GroupExists { id }),
        (Phase::Probing, Reply::Flag(false)) => fail(AppError::NotFound(group_not_found_text(id))),
        (Phase::Probing, Reply::Flag(true)) => send(
            Phase::RemovingMembers,
            Statement::DeleteMembersOfGroup { group_id: id },
        ),
        (Phase::RemovingMembers, Reply::Done) => send(
            Phase::RemovingRow,
            Statement::DeleteGroup { id },
        ),
        (Phase::RemovingRow, Reply::Done) => send(
            Phase::Closing(Response::NoContent),
            Statement::Commit,
        ),
        (Phase::Closing(response), Reply::Done) => succeed(response),
        (_, reply) => give_up(reply),
    }
}

/// One move of listing a group's members.
pub fn list_group_members(group_id: i64, phase: Phase, reply: Reply) -> (m: Move)
    ensures
        move_view(m) == plan::list_group_members(group_id, phase@, reply@),
{
    match (phase, reply) {
        (Phase::Start, _) => send(Phase::Probing, Statement::GroupExists { id: group_id }),
        (Phase::Probing, Reply::Flag(false)) => fail(
            AppError::NotFound(group_not_found_text(group_id)),
        ),
        (Phase::Probing, Reply::Flag(true)) => send(
            Phase::Reading,
            Statement::SelectMembersOfGroup { group_id },
        ),
        (Phase::Reading, Reply::Members(members)) => succeed(Response::Members(members)),
        (_, reply) => give_up(reply),
    }
}

/// One move of removing a member.
pub fn delete_member(id: i64, phase: Phase, reply: Reply) -> (m: Move)
    ensures
        move_view(m) == plan::delete_member(id, phase@, reply@),
{
    match (phase, reply) {
        (Phase::Start, _) => send(Phase::Probing, Statement::MemberExists { id }),
        (Phase::Probing, Reply::Flag(false)) => fail(
            AppError::NotFound(member_not_found_text(id)),
        ),
        (Phase::Probing, Reply::Flag(true)) => send(
            Phase::RemovingRow,
            Statement::DeleteMember { id },
        ),
        (Phase::RemovingRow, Reply::Done) => succeed(Response::NoContent),
        (_, reply) => give_up(reply),
    }
}

/// One move of fetching an event with its groups.
pub fn get_event(id: &String, phase: Phase, reply: Reply) -> (m: Move)
    ensures
        move_view(m) == plan::get_event(id@, phase@, reply@),
{
    match (phase, reply) {
        (Phase::Start, _) => send(Phase::Reading, Statement::SelectEvent { id: id.clone() }),
        (Phase::Reading, Reply::Event(None)) => fail(
            AppError::NotFound(event_not_found_text(id.as_str())),
        ),
        (Phase::Reading, Reply::Event(Some(event))) => send(
            Phase::ReadingGroups(event),
            Statement::SelectGroupsOfEvent { event_id: id.clone() },
        ),
        (Phase::ReadingGroups(event), Reply::Groups(groups)) => succeed(
            Response::EventWithGroups(EventWithGroups { event, groups }),
        ),
        (_, reply) => give_up(reply),
    }
}

/// One move of fetching a group with its members.
pub fn get_group(id: i64, phase: Phase, reply: Reply) -> (m: Move)
    ensures
        move_view(m) == plan::get_group(id, phase@, reply@),
{
    match (phase, reply) {
        (Phase::Start, _) => send(Phase::Reading, Statement::SelectGroup { id }),
        (Phase::Reading, Reply::Group(None)) => fail(AppError::NotFound(group_not_found_text(id))),
        (Phase::Reading, Reply::Group(Some(group))) => send(
            Phase::ReadingMembers(group),
            Statement::SelectMembersOfGroup { group_id: id },
        ),
        (Phase::ReadingMembers(group), Reply::Members(members)) => succeed(
            Response::GroupWithMembers(GroupWithMembers { group, members }),
        ),
        (_, reply) => give_up(reply),
    }
}

/// One move of replacing an event's fields.
pub fn update_event(id: &String, fields: &CreateEventRequest, phase: Phase, reply: Reply) -> (m:
    Move)
    ensures
        move_view(m) == plan::update_event(id@, fields@, phase@, reply@),
{
    match (phase, reply) {
        (Phase::Start, _) => {
            if fields.group_size_limit < 0 {
                fail(AppError::ValidationError(negative_limit_text()))
            } else {
                send(
                    Phase::Reading,
                    Statement::UpdateEvent { id: id.clone(), fields: fields.clone() },
                )
            }
        },
        (Phase::Reading, Reply::Event(None)) => fail(
            AppError::NotFound(event_not_found_text(id.as_str())),
        ),
        (Phase::Reading, Reply::Event(Some(event))) => succeed(Response::Event(event)),
        (_, reply) => give_up(reply),
    }
}

/// One move of storing a new event.
pub fn create_event(id: &String, fields: &CreateEventRequest, phase: Phase, reply: Reply) -> (m:
    Move)
    ensures
        move_view(m) == plan::create_event(id@, fields@, phase@, reply@),
{
    match (phase, reply) {
        (Phase::Start, _) => {
            if fields.group_size_limit < 0 {
                fail(AppError::ValidationError(negative_limit_text()))
            } else {
                send(
                    Phase::Reading,
                    Statement::InsertEvent { id: id.clone(), fields: fields.clone() },
                )
            }
        },
        (Phase::Reading, Reply::Event(Some(event))) => succeed(Response::Event(event)),
        (Phase::Reading, Reply::Event(None)) => fail(AppError::Database(missing_row_text())),
        (_, reply) => give_up(reply),
    }
}

/// One move of listing a page of groups.
pub fn list_groups(page: &Pagination, phase: Phase, reply: Reply) -> (m: Move)
    ensures
        move_view(m) == plan::list_groups(*page, phase@, reply@),
{
    match (phase, reply) {
        (Phase::Start, _) => match page.window() {
            Some(window) => send(
                Phase::Reading,
                Statement::ListGroups { limit: window.limit, offset: window.offset },
            ),
            None => fail(AppError::ValidationError(bad_page_text())),
        },
        (Phase::Reading, Reply::Groups(groups)) => succeed(Response::Groups(groups)),
        (_, reply) => give_up(reply),
    }
}

/// One move of listing a page of events.
pub fn list_events(page: &Pagination, phase: Phase, reply: Reply) -> (m: Move)
    ensures
        move_view(m) == plan::list_events(*page, phase@, reply@),
{
    match (phase, reply) {
        (Phase::Start, _) => match page.window() {
            Some(window) => send(
                Phase::Reading,
                Statement::ListEvents { limit: window.limit, offset: window.offset },
            ),
            None => fail(AppError::ValidationError(bad_page_text())),
        },
        (Phase::Reading, Reply::Events(events)) => succeed(Response::Events(events)),
        (_, reply) => give_up(reply),
    }
}

/// An operation under way: the request and how far it has come.
#[derive(Debug, PartialEq, Eq)]
pub struct Workflow {
    pub operation: Operation,
    pub phase: Phase,
}

impl Workflow {
    /// A workflow for `operation` that has not sent anything yet.
    pub fn new(operation: Operation) -> (w: Workflow)
        ensures
            w.operation == operation,
            w.phase == Phase::Start,
    {
        Workflow { operation, phase: Phase::Start }
    }

    /// The next move, given the store's reply to the statement that the
    /// move before asked for. The first move looks at no reply, so any
    /// may be passed. The request stays as it is.
    pub fn step(self, reply: Reply) -> (r: (Workflow, Action))
        ensures
            r.0.operation@ == self.operation@,
            (r.0.phase@, r.1@) == plan::next(self.operation@, self.phase@, reply@),
    {
        let Workflow { operation, phase } = self;
        let (phase, action) = match &operation {
            Operation::ListEvents(page) => list_events(page, phase, reply),
            Operation::CreateEvent { id, fields } => create_event(id, fields, phase, reply),
            Operation::GetEvent(id) => get_event(id, phase, reply),
            Operation::UpdateEvent(id, fields) => update_event(id, fields, phase, reply),
            Operation::DeleteEvent(id) => delete_event(id, phase, reply),
            Operation::ListGroups(page) => list_groups(page, phase, reply),
            Operation::CreateGroup(request) => create_group(request, phase, reply),
            Operation::GetGroup(id) => get_group(*id, phase, reply),
            Operation::UpdateGroup(id, request) => update_group(*id, request, phase, reply),
            Operation::DeleteGroup(id) => delete_group(*id, phase, reply),
            Operation::ListEventGroups(id) => list_event_groups(id, phase, reply),
            Operation::CreateMember(request) => create_member(request, phase, reply),
            Operation::DeleteMember(id) => delete_member(*id, phase, reply),
            Operation::ListGroupMembers(id) => list_group_members(*id, phase, reply),
        };
        (Workflow { operation, phase }, action)
    }

    /// Begins `operation`: the workflow and its first move.
    pub fn start(operation: Operation) -> (r: (Workflow, Action))
        ensures
            r.0.operation@ == operation@,
            (r.0.phase@, r.1@) == plan::next(operation@, PhaseView::Start, plan::no_reply()),
    {
        Workflow::new(operation).step(Reply::Done)
    }
}

} // verus!
