//! The registry itself, over a store in memory.

use crate::engine::serve;
use crate::error::{AppError, ErrorView};
use crate::ids::{is_event_id, new_event_id};
use crate::memory::MemoryStore;
use crate::model::{
    CreateEventRequest, CreateGroupRequest, CreateMemberRequest, Event, EventWithGroups, Group,
    GroupMember, GroupWithMembers, Timestamp, UpdateGroupRequest,
};
use crate::paging::Pagination;
use crate::protocol::{Operation, Outcome, OutcomeView, Response, ResponseView, outcome_view};
use crate::rules;
use crate::soundness::{theorem_run_follows_rules};
use crate::store::Tables;
use crate::text::{duplicate_event, negative_limit};
use vstd::pervasive::unreached;
use vstd::prelude::*;

verus! {

/// The outcome of an operation that answers with a list of events.
pub open spec fn as_events(r: Result<Vec<Event>, AppError>) -> OutcomeView {
    match r {
        Ok(v) => Ok(ResponseView::Events(v.deep_view())),
        Err(e) => Err(e@),
    }
}

/// The outcome of an operation that answers with one event.
pub open spec fn as_event(r: Result<Event, AppError>) -> OutcomeView {
    match r {
        Ok(v) => Ok(ResponseView::Event(v@)),
        Err(e) => Err(e@),
    }
}

/// The outcome of an operation that answers with an event with its groups.
pub open spec fn as_event_with_groups(r: Result<EventWithGroups, AppError>) -> OutcomeView {
    match r {
        Ok(v) => Ok(ResponseView::EventWithGroups(v@)),
        Err(e) => Err(e@),
    }
}

/// The outcome of an operation that answers with a list of groups.
pub open spec fn as_groups(r: Result<Vec<Group>, AppError>) -> OutcomeView {
    match r {
        Ok(v) => Ok(ResponseView::Groups(v.deep_view())),
        Err(e) => Err(e@),
    }
}

/// The outcome of an operation that answers with one group.
pub open spec fn as_group(r: Result<Group, AppError>) -> OutcomeView {
    match r {
        Ok(v) => Ok(ResponseView::Group(v@)),
        Err(e) => Err(e@),
    }
}

/// The outcome of an operation that answers with a group with its members.
pub open spec fn as_group_with_members(r: Result<GroupWithMembers, AppError>) -> OutcomeView {
    match r {
        Ok(v) => Ok(ResponseView::GroupWithMembers(v@)),
        Err(e) => Err(e@),
    }
}

/// The outcome of an operation that answers with a list of groups with their members.
pub open spec fn as_roster(r: Result<Vec<GroupWithMembers>, AppError>) -> OutcomeView {
    match r {
        Ok(v) => Ok(ResponseView::GroupsWithMembers(v.deep_view())),
        Err(e) => Err(e@),
    }
}

/// The outcome of an operation that answers with one member.
pub open spec fn as_member(r: Result<GroupMember, AppError>) -> OutcomeView {
    match r {
        Ok(v) => Ok(ResponseView::Member(v@)),
        Err(e) => Err(e@),
    }
}

/// The outcome of an operation that answers with a list of members.
pub open spec fn as_members(r: Result<Vec<GroupMember>, AppError>) -> OutcomeView {
    match r {
        Ok(v) => Ok(ResponseView::Members(v.deep_view())),
        Err(e) => Err(e@),
    }
}

/// The outcome of an operation that answers with nothing to show.
pub open spec fn as_nothing(r: Result<(), AppError>) -> OutcomeView {
    match r {
        Ok(_) => Ok(ResponseView::NoContent),
        Err(e) => Err(e@),
    }
}

/// A registry of events, groups and members that lives in memory.
///
/// Between operations its tables are well-formed and no transaction is
/// open. Every operation answers and changes the tables as the module
/// `rules` says; an operation that fails changes nothing.
pub struct Registry {
    store: MemoryStore,
}

impl View for Registry {
    type V = Tables;

    /// The tables of the registry.
    closed spec fn view(&self) -> Tables {
        self.store@.live
    }
}

impl Registry {
    /// The registry is at rest: no transaction is open.
    pub closed spec fn at_rest(&self) -> bool {
        self.store@.saved is None
    }

    /// An empty registry.
    pub fn new() -> (r: Registry)
        ensures
            r@ == Tables::empty(),
            r@.wf(),
            r.at_rest(),
    {
        Registry { store: MemoryStore::new() }
    }

    /// Carries out one operation. `now` is the time that a new event or
    /// group is stamped with.
    pub fn handle(&mut self, operation: Operation, now: Timestamp) -> (outcome: Outcome)
        requires
            old(self)@.wf(),
            old(self).at_rest(),
        ensures
            (final(self)@, outcome_view(outcome)) == rules::result(old(self)@, operation@, now),
            final(self)@.wf(),
            final(self).at_rest(),
    {
        proof {
            theorem_run_follows_rules(self@, operation@, now);
        }
        serve(&mut self.store, operation, now)
    }

    /// Lists one page of events, the latest first.
    pub fn list_events(&mut self, page: Pagination) -> (r: Result<Vec<Event>, AppError>)
        requires
            old(self)@.wf(),
            old(self).at_rest(),
        ensures
            (final(self)@, as_events(r)) == rules::list_events(old(self)@, page),
            final(self)@.wf(),
            final(self).at_rest(),
    {
        match self.handle(Operation::ListEvents(page), Timestamp { secs: 0, nanos: 0 }) {
            Ok(Response::Events(answer)) => Ok(answer),
            Err(e) => Err(e),
            Ok(_) => unreached(),
        }
    }

    /// Stores a new event under the identifier `id`, stamped `now`.
    pub fn create_event_as(
        &mut self,
        id: String,
        fields: CreateEventRequest,
        now: Timestamp,
    ) -> (r: Result<Event, AppError>)
        requires
            old(self)@.wf(),
            old(self).at_rest(),
        ensures
            (final(self)@, as_event(r)) == rules::create_event(old(self)@, id@, fields@, now),
            final(self)@.wf(),
            final(self).at_rest(),
    {
        match self.handle(Operation::CreateEvent { id, fields }, now) {
            Ok(Response::Event(answer)) => Ok(answer),
            Err(e) => Err(e),
            Ok(_) => unreached(),
        }
    }

    /// Fetches one event with its groups.
    pub fn get_event(&mut self, id: String) -> (r: Result<EventWithGroups, AppError>)
        requires
            old(self)@.wf(),
            old(self).at_rest(),
        ensures
            (final(self)@, as_event_with_groups(r)) == rules::get_event(old(self)@, id@),
            final(self)@.wf(),
            final(self).at_rest(),
    {
        match self.handle(Operation::GetEvent(id), Timestamp { secs: 0, nanos: 0 }) {
            Ok(Response::EventWithGroups(answer)) => Ok(answer),
            Err(e) => Err(e),
            Ok(_) => unreached(),
        }
    }

    /// Replaces the fields of one event.
    pub fn update_event(
        &mut self,
        id: String,
        fields: CreateEventRequest,
    ) -> (r: Result<Event, AppError>)
        requires
            old(self)@.wf(),
            old(self).at_rest(),
        ensures
            (final(self)@, as_event(r)) == rules::update_event(old(self)@, id@, fields@),
            final(self)@.wf(),
            final(self).at_rest(),
    {
        match self.handle(Operation::UpdateEvent(id, fields), Timestamp { secs: 0, nanos: 0 }) {
            Ok(Response::Event(answer)) => Ok(answer),
            Err(e) => Err(e),
            Ok(_) => unreached(),
        }
    }

    /// Removes one event with its groups and their members.
    pub fn delete_event(&mut self, id: String) -> (r: Result<(), AppError>)
        requires
            old(self)@.wf(),
            old(self).at_rest(),
        ensures
            (final(self)@, as_nothing(r)) == rules::delete_event(old(self)@, id@),
            final(self)@.wf(),
            final(self).at_rest(),
    {
        match self.handle(Operation::DeleteEvent(id), Timestamp { secs: 0, nanos: 0 }) {
            Ok(Response::NoContent) => Ok(()),
            Err(e) => Err(e),
            Ok(_) => unreached(),
        }
    }

    /// Lists one page of groups, the latest first.
    pub fn list_groups(&mut self, page: Pagination) -> (r: Result<Vec<Group>, AppError>)
        requires
            old(self)@.wf(),
            old(self).at_rest(),
        ensures
            (final(self)@, as_groups(r)) == rules::list_groups(old(self)@, page),
            final(self)@.wf(),
            final(self).at_rest(),
    {
        match self.handle(Operation::ListGroups(page), Timestamp { secs: 0, nanos: 0 }) {
            Ok(Response::Groups(answer)) => Ok(answer),
            Err(e) => Err(e),
            Ok(_) => unreached(),
        }
    }

    /// Stores a new group, stamped `now`, with the members it starts with.
    pub fn create_group(
        &mut self,
        request: CreateGroupRequest,
        now: Timestamp,
    ) -> (r: Result<Group, AppError>)
        requires
            old(self)@.wf(),
            old(self).at_rest(),
        ensures
            (final(self)@, as_group(r)) == rules::create_group(old(self)@, request@, now),
            final(self)@.wf(),
            final(self).at_rest(),
    {
        match self.handle(Operation::CreateGroup(request), now) {
            Ok(Response::Group(answer)) => Ok(answer),
            Err(e) => Err(e),
            Ok(_) => unreached(),
        }
    }

    /// Fetches one group with its members.
    pub fn get_group(&mut self, id: i64) -> (r: Result<GroupWithMembers, AppError>)
        requires
            old(self)@.wf(),
            old(self).at_rest(),
        ensures
            (final(self)@, as_group_with_members(r)) == rules::get_group(old(self)@, id),
            final(self)@.wf(),
            final(self).at_rest(),
    {
        match self.handle(Operation::GetGroup(id), Timestamp { secs: 0, nanos: 0 }) {
            Ok(Response::GroupWithMembers(answer)) => Ok(answer),
            Err(e) => Err(e),
            Ok(_) => unreached(),
        }
    }

    /// Replaces the settable fields of one group and all of its members.
    pub fn update_group(
        &mut self,
        id: i64,
        request: UpdateGroupRequest,
    ) -> (r: Result<GroupWithMembers, AppError>)
        requires
            old(self)@.wf(),
            old(self).at_rest(),
        ensures
            (final(self)@, as_group_with_members(r)) == rules::update_group(old(self)@, id, request@),
            final(self)@.wf(),
            final(self).at_rest(),
    {
        match self.handle(
            Operation::UpdateGroup(id, request),
            Timestamp { secs: 0, nanos: 0 },
        ) {
            Ok(Response::GroupWithMembers(answer)) => Ok(answer),
            Err(e) => Err(e),
            Ok(_) => unreached(),
        }
    }

    /// Removes one group with its members.
    pub fn delete_group(&mut self, id: i64) -> (r: Result<(), AppError>)
        requires
            old(self)@.wf(),
            old(self).at_rest(),
        ensures
            (final(self)@, as_nothing(r)) == rules::delete_group(old(self)@, id),
            final(self)@.wf(),
            final(self).at_rest(),
    {
        match self.handle(Operation::DeleteGroup(id), Timestamp { secs: 0, nanos: 0 }) {
            Ok(Response::NoContent) => Ok(()),
            Err(e) => Err(e),
            Ok(_) => unreached(),
        }
    }

    /// Lists the groups of one event, each with its members.
    pub fn list_event_groups(
        &mut self,
        event_id: String,
    ) -> (r: Result<Vec<GroupWithMembers>, AppError>)
        requires
            old(self)@.wf(),
            old(self).at_rest(),
        ensures
            (final(self)@, as_roster(r)) == rules::list_event_groups(old(self)@, event_id@),
            final(self)@.wf(),
            final(self).at_rest(),
    {
        match self.handle(
            Operation::ListEventGroups(event_id),
            Timestamp { secs: 0, nanos: 0 },
        ) {
            Ok(Response::GroupsWithMembers(answer)) => Ok(answer),
            Err(e) => Err(e),
            Ok(_) => unreached(),
        }
    }

    /// Adds one member to an existing group that accepts others and has room.
    pub fn create_member(
        &mut self,
        request: CreateMemberRequest,
    ) -> (r: Result<GroupMember, AppError>)
        requires
            old(self)@.wf(),
            old(self).at_rest(),
        ensures
            (final(self)@, as_member(r)) == rules::create_member(old(self)@, request@),
            final(self)@.wf(),
            final(self).at_rest(),
    {
        match self.handle(Operation::CreateMember(request), Timestamp { secs: 0, nanos: 0 }) {
            Ok(Response::Member(answer)) => Ok(answer),
            Err(e) => Err(e),
            Ok(_) => unreached(),
        }
    }

    /// Removes one member.
    pub fn delete_member(&mut self, id: i64) -> (r: Result<(), AppError>)
        requires
            old(self)@.wf(),
            old(self).at_rest(),
        ensures
            (final(self)@, as_nothing(r)) == rules::delete_member(old(self)@, id),
            final(self)@.wf(),
            final(self).at_rest(),
    {
        match self.handle(Operation::DeleteMember(id), Timestamp { secs: 0, nanos: 0 }) {
            Ok(Response::NoContent) => Ok(()),
            Err(e) => Err(e),
            Ok(_) => unreached(),
        }
    }

    /// Lists the members of one group.
    pub fn list_group_members(
        &mut self,
        group_id: i64,
    ) -> (r: Result<Vec<GroupMember>, AppError>)
        requires
            old(self)@.wf(),
            old(self).at_rest(),
        ensures
            (final(self)@, as_members(r)) == rules::list_group_members(old(self)@, group_id),
            final(self)@.wf(),
            final(self).at_rest(),
    {
        match self.handle(
            Operation::ListGroupMembers(group_id),
            Timestamp { secs: 0, nanos: 0 },
        ) {
            Ok(Response::Members(answer)) => Ok(answer),
            Err(e) => Err(e),
            Ok(_) => unreached(),
        }
    }

    /// Stores a new event, stamped `now`, under a newly drawn identifier.
    ///
    /// A limit below zero is refused. Otherwise the event is stored, unless
    /// the drawn identifier is taken, which is as good as impossible; then
    /// the store's refusal is the answer. In particular an empty registry
    /// stores every event whose limit is in order.
    pub fn create_event(&mut self, fields: CreateEventRequest, now: Timestamp) -> (r: Result<
        Event,
        AppError,
    >)
        requires
            old(self)@.wf(),
            old(self).at_rest(),
        ensures
            exists|drawn: Seq<char>|
                is_event_id(drawn) && (final(self)@, as_event(r)) == rules::create_event(
                    old(self)@,
                    drawn,
                    fields@,
                    now,
                ),
            r matches Ok(event) ==> is_event_id(event@.id) && (final(self)@, as_event(r))
                == rules::create_event(old(self)@, event@.id, fields@, now),
            r matches Err(e) ==> final(self)@ == old(self)@ && if fields@.group_size_limit < 0 {
                e@ == ErrorView::ValidationError(negative_limit())
            } else {
                e@ == ErrorView::Database(duplicate_event()) && exists|taken: Seq<char>|
                    is_event_id(taken) && old(self)@.has_event(taken)
            },
            final(self)@.wf(),
            final(self).at_rest(),
    {
        let id = new_event_id();
        self.create_event_as(id, fields, now)
    }
}

} // verus!
