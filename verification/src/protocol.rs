//! What passes between an operation and the store: the statements an
//! operation sends, the replies the store gives, and the answer the
//! operation ends with.

use crate::error::{AppError, ErrorView};
use crate::model::{
    CreateEventRequest, CreateGroupRequest, CreateMemberRequest, Event, EventFieldsView,
    EventView, EventWithGroups, EventWithGroupsView, Group, GroupMember, GroupView,
    GroupWithMembers, GroupWithMembersView, MemberRequestView, MemberView,
    MembersForCreateGroupRequest, NewGroupView, NewMemberView, GroupUpdateView,
    UpdateGroupRequest, copy_text,
};
use crate::paging::Pagination;
use vstd::prelude::*;

verus! {

/// The fields of a group that a client may set and change.
#[derive(Debug, PartialEq, Eq)]
pub struct GroupFields {
    pub creator_name: String,
    pub creator_email: String,
    pub group_name: String,
    pub accepts_others: bool,
    pub project_description: Option<String>,
}

/// The view of [`GroupFields`].
pub struct GroupFieldsView {
    pub creator_name: Seq<char>,
    pub creator_email: Seq<char>,
    pub group_name: Seq<char>,
    pub accepts_others: bool,
    pub project_description: Option<Seq<char>>,
}

impl View for GroupFields {
    type V = GroupFieldsView;

    open spec fn view(&self) -> GroupFieldsView {
        GroupFieldsView {
            creator_name: self.creator_name@,
            creator_email: self.creator_email@,
            group_name: self.group_name@,
            accepts_others: self.accepts_others,
            project_description: self.project_description.deep_view(),
        }
    }
}

impl NewGroupView {
    /// The settable fields that a new group starts with.
    pub open spec fn fields(self) -> GroupFieldsView {
        GroupFieldsView {
            creator_name: self.creator_name,
            creator_email: self.creator_email,
            group_name: self.group_name,
            accepts_others: self.accepts_others,
            project_description: self.project_description,
        }
    }
}

impl GroupUpdateView {
    /// The settable fields that an update writes.
    pub open spec fn fields(self) -> GroupFieldsView {
        GroupFieldsView {
            creator_name: self.creator_name,
            creator_email: self.creator_email,
            group_name: self.group_name,
            accepts_others: self.accepts_others,
            project_description: self.project_description,
        }
    }
}

impl CreateGroupRequest {
    /// The settable fields that the new group starts with.
    pub fn fields(&self) -> (f: GroupFields)
        ensures
            f@ == self@.fields(),
    {
        GroupFields {
            creator_name: self.creator_name.clone(),
            creator_email: self.creator_email.clone(),
            group_name: self.group_name.clone(),
            accepts_others: self.accepts_others,
            project_description: copy_text(&self.project_description),
        }
    }
}

impl UpdateGroupRequest {
    /// The settable fields that the update writes.
    pub fn fields(&self) -> (f: GroupFields)
        ensures
            f@ == self@.fields(),
    {
        GroupFields {
            creator_name: self.creator_name.clone(),
            creator_email: self.creator_email.clone(),
            group_name: self.group_name.clone(),
            accepts_others: self.accepts_others,
            project_description: copy_text(&self.project_description),
        }
    }
}

/// One statement for the store. Every statement is atomic: it takes
/// effect as a whole or, where the store reports a failure, not at all.
#[derive(Debug, PartialEq, Eq)]
#[allow(inconsistent_fields)]
pub enum Statement {
    /// Opens a transaction.
    Begin,
    /// Makes the statements since `Begin` permanent.
    Commit,
    /// The events, latest `date_time` first, cut to a window.
    ListEvents { limit: i64, offset: i64 },
    /// Adds an event under a given id and gives back the stored row. A
    /// limit below zero is refused.
    InsertEvent { id: String, fields: CreateEventRequest },
    /// The event with this id, if there is one.
    SelectEvent { id: String },
    /// Replaces the fields of the event with this id and gives back the
    /// stored row, if there is one. A limit below zero is refused.
    UpdateEvent { id: String, fields: CreateEventRequest },
    /// Is there an event with this id?
    EventExists { id: String },
    /// Removes the event with this id.
    DeleteEvent { id: String },
    /// The groups, latest `created_at` first, cut to a window.
    ListGroups { limit: i64, offset: i64 },
    /// Adds a group under a fresh id and gives back the stored row.
    InsertGroup { event_id: String, fields: GroupFields },
    /// The group with this id, if there is one.
    SelectGroup { id: i64 },
    /// Replaces the settable fields of the group with this id and gives
    /// back the stored row, if there is one.
    UpdateGroup { id: i64, fields: GroupFields },
    /// Is there a group with this id?
    GroupExists { id: i64 },
    /// Removes the group with this id.
    DeleteGroup { id: i64 },
    /// The groups of one event, latest `created_at` first.
    SelectGroupsOfEvent { event_id: String },
    /// Removes the groups of one event.
    DeleteGroupsOfEvent { event_id: String },
    /// Adds a member under a fresh id and gives back the stored row.
    InsertMember { group_id: i64, member: MembersForCreateGroupRequest },
    /// The members of one group.
    SelectMembersOfGroup { group_id: i64 },
    /// The members of all groups of one event.
    SelectMembersOfEvent { event_id: String },
    /// How many members one group has.
    CountMembersOfGroup { group_id: i64 },
    /// Is there a member with this id?
    MemberExists { id: i64 },
    /// Removes the member with this id.
    DeleteMember { id: i64 },
    /// Removes the members of one group.
    DeleteMembersOfGroup { group_id: i64 },
    /// Removes the members of all groups of one event.
    DeleteMembersOfEvent { event_id: String },
}

/// The view of a [`Statement`].
#[allow(inconsistent_fields)]
pub enum StatementView {
    Begin,
    Commit,
    ListEvents { limit: i64, offset: i64 },
    InsertEvent { id: Seq<char>, fields: EventFieldsView },
    SelectEvent { id: Seq<char> },
    UpdateEvent { id: Seq<char>, fields: EventFieldsView },
    EventExists { id: Seq<char> },
    DeleteEvent { id: Seq<char> },
    ListGroups { limit: i64, offset: i64 },
    InsertGroup { event_id: Seq<char>, fields: GroupFieldsView },
    SelectGroup { id: i64 },
    UpdateGroup { id: i64, fields: GroupFieldsView },
    GroupExists { id: i64 },
    DeleteGroup { id: i64 },
    SelectGroupsOfEvent { event_id: Seq<char> },
    DeleteGroupsOfEvent { event_id: Seq<char> },
    InsertMember { group_id: i64, member: NewMemberView },
    SelectMembersOfGroup { group_id: i64 },
    SelectMembersOfEvent { event_id: Seq<char> },
    CountMembersOfGroup { group_id: i64 },
    MemberExists { id: i64 },
    DeleteMember { id: i64 },
    DeleteMembersOfGroup { group_id: i64 },
    DeleteMembersOfEvent { event_id: Seq<char> },
}

impl StatementView {
    /// The statement only reads: it changes no row and neither opens nor
    /// commits a transaction.
    pub open spec fn only_reads(self) -> bool {
        self is ListEvents || self is SelectEvent || self is EventExists || self is ListGroups
            || self is SelectGroup || self is GroupExists || self is SelectGroupsOfEvent
            || self is SelectMembersOfGroup || self is SelectMembersOfEvent
            || self is CountMembersOfGroup || self is MemberExists
    }
}

impl View for Statement {
    type V = StatementView;

    open spec fn view(&self) -> StatementView {
        match self {
            Statement::Begin => StatementView::Begin,
            Statement::Commit => StatementView::Commit,
            Statement::ListEvents { limit, offset } => StatementView::ListEvents {
                limit: *limit,
                offset: *offset,
            },
            Statement::InsertEvent { id, fields } => StatementView::InsertEvent {
                id: id@,
                fields: fields@,
            },
            Statement::SelectEvent { id } => StatementView::SelectEvent { id: id@ },
            Statement::UpdateEvent { id, fields } => StatementView::UpdateEvent {
                id: id@,
                fields: fields@,
            },
            Statement::EventExists { id } => StatementView::EventExists { id: id@ },
            Statement::DeleteEvent { id } => StatementView::DeleteEvent { id: id@ },
            Statement::ListGroups { limit, offset } => StatementView::ListGroups {
                limit: *limit,
                offset: *offset,
            },
            Statement::InsertGroup { event_id, fields } => StatementView::InsertGroup {
                event_id: event_id@,
                fields: fields@,
            },
            Statement::SelectGroup { id } => StatementView::SelectGroup { id: *id },
            Statement::UpdateGroup { id, fields } => StatementView::UpdateGroup {
                id: *id,
                fields: fields@,
            },
            Statement::GroupExists { id } => StatementView::GroupExists { id: *id },
            Statement::DeleteGroup { id } => StatementView::DeleteGroup { id: *id },
            Statement::SelectGroupsOfEvent { event_id } => StatementView::SelectGroupsOfEvent {
                event_id: event_id@,
            },
            Statement::DeleteGroupsOfEvent { event_id } => StatementView::DeleteGroupsOfEvent {
                event_id: event_id@,
            },
            Statement::InsertMember { group_id, member } => StatementView::InsertMember {
                group_id: *group_id,
                member: member@,
            },
            Statement::SelectMembersOfGroup { group_id } => StatementView::SelectMembersOfGroup {
                group_id: *group_id,
            },
            Statement::SelectMembersOfEvent { event_id } => StatementView::SelectMembersOfEvent {
                event_id: event_id@,
            },
            Statement::CountMembersOfGroup { group_id } => StatementView::CountMembersOfGroup {
                group_id: *group_id,
            },
            Statement::MemberExists { id } => StatementView::MemberExists { id: *id },
            Statement::DeleteMember { id } => StatementView::DeleteMember { id: *id },
            Statement::DeleteMembersOfGroup { group_id } => StatementView::DeleteMembersOfGroup {
                group_id: *group_id,
            },
            Statement::DeleteMembersOfEvent { event_id } => StatementView::DeleteMembersOfEvent {
                event_id: event_id@,
            },
        }
    }
}

/// What the store gives back for one statement.
#[derive(Debug, PartialEq, Eq)]
pub enum Reply {
    /// The statement was carried out and gives nothing back.
    Done,
    /// The answer to an existence question.
    Flag(bool),
    /// A number of rows.
    Count(i64),
    /// At most one event.
    Event(Option<Event>),
    /// Events, in the order the statement asked for.
    Events(Vec<Event>),
    /// At most one group.
    Group(Option<Group>),
    /// Groups, in the order the statement asked for.
    Groups(Vec<Group>),
    /// The member that was just stored.
    Member(GroupMember),
    /// Members.
    Members(Vec<GroupMember>),
    /// The store could not carry the statement out; the text says why.
    Failed(String),
}

/// The view of a [`Reply`].
pub enum ReplyView {
    Done,
    Flag(bool),
    Count(i64),
    Event(Option<EventView>),
    Events(Seq<EventView>),
    Group(Option<GroupView>),
    Groups(Seq<GroupView>),
    Member(MemberView),
    Members(Seq<MemberView>),
    Failed(Seq<char>),
}

impl View for Reply {
    type V = ReplyView;

    open spec fn view(&self) -> ReplyView {
        match self {
            Reply::Done => ReplyView::Done,
            Reply::Flag(b) => ReplyView::Flag(*b),
            Reply::Count(n) => ReplyView::Count(*n),
            Reply::Event(e) => ReplyView::Event(e.deep_view()),
            Reply::Events(es) => ReplyView::Events(es.deep_view()),
            Reply::Group(g) => ReplyView::Group(g.deep_view()),
            Reply::Groups(gs) => ReplyView::Groups(gs.deep_view()),
            Reply::Member(m) => ReplyView::Member(m@),
            Reply::Members(ms) => ReplyView::Members(ms.deep_view()),
            Reply::Failed(why) => ReplyView::Failed(why@),
        }
    }
}

/// What a successful operation answers with.
#[derive(Debug, PartialEq, Eq)]
pub enum Response {
    Events(Vec<Event>),
    Event(Event),
    EventWithGroups(EventWithGroups),
    Groups(Vec<Group>),
    Group(Group),
    GroupWithMembers(GroupWithMembers),
    GroupsWithMembers(Vec<GroupWithMembers>),
    Member(GroupMember),
    Members(Vec<GroupMember>),
    /// The operation succeeded and there is nothing to show.
    NoContent,
}

/// The view of a [`Response`].
pub enum ResponseView {
    Events(Seq<EventView>),
    Event(EventView),
    EventWithGroups(EventWithGroupsView),
    Groups(Seq<GroupView>),
    Group(GroupView),
    GroupWithMembers(GroupWithMembersView),
    GroupsWithMembers(Seq<GroupWithMembersView>),
    Member(MemberView),
    Members(Seq<MemberView>),
    NoContent,
}

impl View for Response {
    type V = ResponseView;

    open spec fn view(&self) -> ResponseView {
        match self {
            Response::Events(es) => ResponseView::Events(es.deep_view()),
            Response::Event(e) => ResponseView::Event(e@),
            Response::EventWithGroups(e) => ResponseView::EventWithGroups(e@),
            Response::Groups(gs) => ResponseView::Groups(gs.deep_view()),
            Response::Group(g) => ResponseView::Group(g@),
            Response::GroupWithMembers(g) => ResponseView::GroupWithMembers(g@),
            Response::GroupsWithMembers(gs) => ResponseView::GroupsWithMembers(gs.deep_view()),
            Response::Member(m) => ResponseView::Member(m@),
            Response::Members(ms) => ResponseView::Members(ms.deep_view()),
            Response::NoContent => ResponseView::NoContent,
        }
    }
}

impl ResponseView {
    /// The HTTP status of a success: 204 where there is nothing to show,
    /// 200 otherwise.
    pub open spec fn status(self) -> u16 {
        if self is NoContent {
            204
        } else {
            200
        }
    }
}

impl Response {
    /// The HTTP status that goes with this answer.
    pub fn status_code(&self) -> (code: u16)
        ensures
            code == self@.status(),
    {
        match self {
            Response::NoContent => 204,
            _ => 200,
        }
    }
}

/// How an operation ended.
pub type Outcome = Result<Response, AppError>;

/// The view of an [`Outcome`].
pub type OutcomeView = Result<ResponseView, ErrorView>;

/// The view of an outcome.
pub open spec fn outcome_view(outcome: Outcome) -> OutcomeView {
    match outcome {
        Ok(r) => Ok(r@),
        Err(e) => Err(e@),
    }
}

/// What an operation wants done next.
#[derive(Debug, PartialEq, Eq)]
pub enum Action {
    /// Send this statement to the store and come back with its reply.
    Run(Statement),
    /// The operation is over. A transaction that is still open at this
    /// point has to be rolled back.
    Finish(Outcome),
}

/// The view of an [`Action`].
pub enum ActionView {
    Run(StatementView),
    Finish(OutcomeView),
}

impl View for Action {
    type V = ActionView;

    open spec fn view(&self) -> ActionView {
        match self {
            Action::Run(s) => ActionView::Run(s@),
            Action::Finish(o) => ActionView::Finish(outcome_view(*o)),
        }
    }
}

/// One request to the registry.
#[derive(Debug, PartialEq, Eq)]
pub enum Operation {
    ListEvents(Pagination),
    /// `id` is the identifier that the new event will be stored under.
    CreateEvent { id: String, fields: CreateEventRequest },
    GetEvent(String),
    UpdateEvent(String, CreateEventRequest),
    DeleteEvent(String),
    ListGroups(Pagination),
    CreateGroup(CreateGroupRequest),
    GetGroup(i64),
    UpdateGroup(i64, UpdateGroupRequest),
    DeleteGroup(i64),
    ListEventGroups(String),
    CreateMember(CreateMemberRequest),
    DeleteMember(i64),
    ListGroupMembers(i64),
}

/// The view of an [`Operation`].
pub enum OperationView {
    ListEvents(Pagination),
    CreateEvent { id: Seq<char>, fields: EventFieldsView },
    GetEvent(Seq<char>),
    UpdateEvent(Seq<char>, EventFieldsView),
    DeleteEvent(Seq<char>),
    ListGroups(Pagination),
    CreateGroup(NewGroupView),
    GetGroup(i64),
    UpdateGroup(i64, GroupUpdateView),
    DeleteGroup(i64),
    ListEventGroups(Seq<char>),
    CreateMember(MemberRequestView),
    DeleteMember(i64),
    ListGroupMembers(i64),
}

impl View for Operation {
    type V = OperationView;

    open spec fn view(&self) -> OperationView {
        match self {
            Operation::ListEvents(p) => OperationView::ListEvents(*p),
            Operation::CreateEvent { id, fields } => OperationView::CreateEvent {
                id: id@,
                fields: fields@,
            },
            Operation::GetEvent(id) => OperationView::GetEvent(id@),
            Operation::UpdateEvent(id, fields) => OperationView::UpdateEvent(id@, fields@),
            Operation::DeleteEvent(id) => OperationView::DeleteEvent(id@),
            Operation::ListGroups(p) => OperationView::ListGroups(*p),
            Operation::CreateGroup(r) => OperationView::CreateGroup(r@),
            Operation::GetGroup(id) => OperationView::GetGroup(*id),
            Operation::UpdateGroup(id, r) => OperationView::UpdateGroup(*id, r@),
            Operation::DeleteGroup(id) => OperationView::DeleteGroup(*id),
            Operation::ListEventGroups(id) => OperationView::ListEventGroups(id@),
            Operation::CreateMember(r) => OperationView::CreateMember(r@),
            Operation::DeleteMember(id) => OperationView::DeleteMember(*id),
            Operation::ListGroupMembers(id) => OperationView::ListGroupMembers(*id),
        }
    }
}

} // verus!
