//! The entities of the registry and the shapes of the requests that create
//! or change them, each with its mathematical view.
//!
//! A view replaces every `String` by its sequence of characters and every
//! `Vec` by the sequence of its items' views. Contracts throughout the crate
//! are stated over these views.

use crate::seqs::{lemma_take_next};
use vstd::prelude::*;

verus! {

/// An instant in UTC: whole seconds since the Unix epoch and the
/// nanoseconds within that second.
#[derive(Clone, Copy, Debug, PartialEq, Eq, Structural)]
pub struct Timestamp {
    pub secs: i64,
    pub nanos: u32,
}

impl Timestamp {
    /// `self` is strictly later than `other`.
    pub open spec fn after(self, other: Timestamp) -> bool {
        self.secs > other.secs || (self.secs == other.secs && self.nanos > other.nanos)
    }

    /// Tells whether `self` is strictly later than `other`.
    pub fn is_after(&self, other: &Timestamp) -> (r: bool)
        ensures
            r == self.after(*other),
    {
        self.secs > other.secs || (self.secs == other.secs && self.nanos > other.nanos)
    }
}

/// `a` is strictly later than `b`, for instants that may be missing. A
/// missing instant is earlier than every instant.
pub open spec fn stamp_after(a: Option<Timestamp>, b: Option<Timestamp>) -> bool {
    match (a, b) {
        (Some(x), Some(y)) => x.after(y),
        (Some(_), None) => true,
        (None, _) => false,
    }
}

/// Tells whether `a` is strictly later than `b`; a missing instant is
/// earlier than every instant.
pub fn is_stamp_after(a: &Option<Timestamp>, b: &Option<Timestamp>) -> (r: bool)
    ensures
        r == stamp_after(*a, *b),
{
    match a {
        Some(x) => match b {
            Some(y) => x.is_after(y),
            None => true,
        },
        None => false,
    }
}

/// Copies an optional string.
pub fn copy_text(text: &Option<String>) -> (r: Option<String>)
    ensures
        r.deep_view() == text.deep_view(),
{
    match text {
        Some(s) => Some(s.clone()),
        None => None,
    }
}

/// A scheduled happening that groups register under. Its
/// `group_size_limit` caps the members of each of its groups and is never
/// below zero in a stored event.
#[derive(Debug, PartialEq, Eq)]
pub struct Event {
    pub id: String,
    pub name: String,
    pub date_time: Timestamp,
    pub group_size_limit: i64,
    pub location: String,
    pub created_at: Option<Timestamp>,
}

/// The view of an [`Event`].
pub struct EventView {
    pub id: Seq<char>,
    pub name: Seq<char>,
    pub date_time: Timestamp,
    pub group_size_limit: i64,
    pub location: Seq<char>,
    pub created_at: Option<Timestamp>,
}

impl View for Event {
    type V = EventView;

    open spec fn view(&self) -> EventView {
        EventView {
            id: self.id@,
            name: self.name@,
            date_time: self.date_time,
            group_size_limit: self.group_size_limit,
            location: self.location@,
            created_at: self.created_at,
        }
    }
}

impl DeepView for Event {
    type V = EventView;

    open spec fn deep_view(&self) -> EventView {
        self@
    }
}

impl Clone for Event {
    fn clone(&self) -> (r: Self)
        ensures
            r@ == self@,
    {
        Event {
            id: self.id.clone(),
            name: self.name.clone(),
            date_time: self.date_time,
            group_size_limit: self.group_size_limit,
            location: self.location.clone(),
            created_at: self.created_at,
        }
    }
}

/// The client-supplied fields of an event, for creating one and for
/// replacing the fields of an existing one.
#[derive(Debug, PartialEq, Eq)]
pub struct CreateEventRequest {
    pub name: String,
    pub date_time: Timestamp,
    pub group_size_limit: i64,
    pub location: String,
}

/// The view of a [`CreateEventRequest`].
pub struct EventFieldsView {
    pub name: Seq<char>,
    pub date_time: Timestamp,
    pub group_size_limit: i64,
    pub location: Seq<char>,
}

impl View for CreateEventRequest {
    type V = EventFieldsView;

    open spec fn view(&self) -> EventFieldsView {
        EventFieldsView {
            name: self.name@,
            date_time: self.date_time,
            group_size_limit: self.group_size_limit,
            location: self.location@,
        }
    }
}

impl Clone for CreateEventRequest {
    fn clone(&self) -> (r: Self)
        ensures
            r@ == self@,
    {
        CreateEventRequest {
            name: self.name.clone(),
            date_time: self.date_time,
            group_size_limit: self.group_size_limit,
            location: self.location.clone(),
        }
    }
}

/// A team registered under one event.
#[derive(Debug, PartialEq, Eq)]
pub struct Group {
    pub id: i64,
    pub event_id: String,
    pub creator_name: String,
    pub creator_email: String,
    pub group_name: String,
    pub accepts_others: bool,
    pub project_description: Option<String>,
    pub created_at: Option<Timestamp>,
}

/// The view of a [`Group`].
pub struct GroupView {
    pub id: i64,
    pub event_id: Seq<char>,
    pub creator_name: Seq<char>,
    pub creator_email: Seq<char>,
    pub group_name: Seq<char>,
    pub accepts_others: bool,
    pub project_description: Option<Seq<char>>,
    pub created_at: Option<Timestamp>,
}

impl View for Group {
    type V = GroupView;

    open spec fn view(&self) -> GroupView {
        GroupView {
            id: self.id,
            event_id: self.event_id@,
            creator_name: self.creator_name@,
            creator_email: self.creator_email@,
            group_name: self.group_name@,
            accepts_others: self.accepts_others,
            project_description: self.project_description.deep_view(),
            created_at: self.created_at,
        }
    }
}

impl DeepView for Group {
    type V = GroupView;

    open spec fn deep_view(&self) -> GroupView {
        self@
    }
}

impl Clone for Group {
    fn clone(&self) -> (r: Self)
        ensures
            r@ == self@,
    {
        Group {
            id: self.id,
            event_id: self.event_id.clone(),
            creator_name: self.creator_name.clone(),
            creator_email: self.creator_email.clone(),
            group_name: self.group_name.clone(),
            accepts_others: self.accepts_others,
            project_description: copy_text(&self.project_description),
            created_at: self.created_at,
        }
    }
}

/// One member as a request names it: a name and, if known, an address.
#[derive(Debug, PartialEq, Eq)]
pub struct MembersForCreateGroupRequest {
    pub name: String,
    pub email: Option<String>,
}

/// The view of a [`MembersForCreateGroupRequest`].
pub struct NewMemberView {
    pub name: Seq<char>,
    pub email: Option<Seq<char>>,
}

impl View for MembersForCreateGroupRequest {
    type V = NewMemberView;

    open spec fn view(&self) -> NewMemberView {
        NewMemberView { name: self.name@, email: self.email.deep_view() }
    }
}

impl DeepView for MembersForCreateGroupRequest {
    type V = NewMemberView;

    open spec fn deep_view(&self) -> NewMemberView {
        self@
    }
}

impl Clone for MembersForCreateGroupRequest {
    fn clone(&self) -> (r: Self)
        ensures
            r@ == self@,
    {
        MembersForCreateGroupRequest { name: self.name.clone(), email: copy_text(&self.email) }
    }
}

/// Copies a list of requested members.
pub fn copy_new_members(list: &Vec<MembersForCreateGroupRequest>) -> (r: Vec<
    MembersForCreateGroupRequest,
>)
    ensures
        r.deep_view() == list.deep_view(),
{
    let mut out: Vec<MembersForCreateGroupRequest> = Vec::new();
    let mut i: usize = 0;
    while i < list.len()
        invariant
            i <= list.len(),
            out.deep_view() == list.deep_view().take(i as int),
        decreases list.len() - i,
    {
        let item = list[i].clone();
        out.push(item);
        proof {
            lemma_take_next(list.deep_view(), i as int);
        }
        i = i + 1;
    }
    out
}

/// The fields of a new group and the members it starts with.
#[derive(Debug, PartialEq, Eq)]
pub struct CreateGroupRequest {
    pub event_id: String,
    pub creator_name: String,
    pub creator_email: String,
    pub group_name: String,
    pub accepts_others: bool,
    pub project_description: Option<String>,
    pub members: Vec<MembersForCreateGroupRequest>,
}

/// The view of a [`CreateGroupRequest`].
pub struct NewGroupView {
    pub event_id: Seq<char>,
    pub creator_name: Seq<char>,
    pub creator_email: Seq<char>,
    pub group_name: Seq<char>,
    pub accepts_others: bool,
    pub project_description: Option<Seq<char>>,
    pub members: Seq<NewMemberView>,
}

impl View for CreateGroupRequest {
    type V = NewGroupView;

    open spec fn view(&self) -> NewGroupView {
        NewGroupView {
            event_id: self.event_id@,
            creator_name: self.creator_name@,
            creator_email: self.creator_email@,
            group_name: self.group_name@,
            accepts_others: self.accepts_others,
            project_description: self.project_description.deep_view(),
            members: self.members.deep_view(),
        }
    }
}

impl Clone for CreateGroupRequest {
    fn clone(&self) -> (r: Self)
        ensures
            r@ == self@,
    {
        CreateGroupRequest {
            event_id: self.event_id.clone(),
            creator_name: self.creator_name.clone(),
            creator_email: self.creator_email.clone(),
            group_name: self.group_name.clone(),
            accepts_others: self.accepts_others,
            project_description: copy_text(&self.project_description),
            members: copy_new_members(&self.members),
        }
    }
}

/// The new fields of an existing group and the members that replace all of
/// its present ones. The event a group belongs to cannot be changed.
#[derive(Debug, PartialEq, Eq)]
pub struct UpdateGroupRequest {
    pub creator_name: String,
    pub creator_email: String,
    pub group_name: String,
    pub accepts_others: bool,
    pub project_description: Option<String>,
    pub members: Vec<MembersForCreateGroupRequest>,
}

/// The view of an [`UpdateGroupRequest`].
pub struct GroupUpdateView {
    pub creator_name: Seq<char>,
    pub creator_email: Seq<char>,
    pub group_name: Seq<char>,
    pub accepts_others: bool,
    pub project_description: Option<Seq<char>>,
    pub members: Seq<NewMemberView>,
}

impl View for UpdateGroupRequest {
    type V = GroupUpdateView;

    open spec fn view(&self) -> GroupUpdateView {
        GroupUpdateView {
            creator_name: self.creator_name@,
            creator_email: self.creator_email@,
            group_name: self.group_name@,
            accepts_others: self.accepts_others,
            project_description: self.project_description.deep_view(),
            members: self.members.deep_view(),
        }
    }
}

impl Clone for UpdateGroupRequest {
    fn clone(&self) -> (r: Self)
        ensures
            r@ == self@,
    {
        UpdateGroupRequest {
            creator_name: self.creator_name.clone(),
            creator_email: self.creator_email.clone(),
            group_name: self.group_name.clone(),
            accepts_others: self.accepts_others,
            project_description: copy_text(&self.project_description),
            members: copy_new_members(&self.members),
        }
    }
}

/// A participant, belonging to exactly one group.
#[derive(Debug, PartialEq, Eq)]
pub struct GroupMember {
    pub id: i64,
    pub group_id: i64,
    pub name: String,
    pub email: Option<String>,
}

/// The view of a [`GroupMember`].
pub struct MemberView {
    pub id: i64,
    pub group_id: i64,
    pub name: Seq<char>,
    pub email: Option<Seq<char>>,
}

impl View for GroupMember {
    type V = MemberView;

    open spec fn view(&self) -> MemberView {
        MemberView {
            id: self.id,
            group_id: self.group_id,
            name: self.name@,
            email: self.email.deep_view(),
        }
    }
}

impl DeepView for GroupMember {
    type V = MemberView;

    open spec fn deep_view(&self) -> MemberView {
        self@
    }
}

impl Clone for GroupMember {
    fn clone(&self) -> (r: Self)
        ensures
            r@ == self@,
    {
        GroupMember {
            id: self.id,
            group_id: self.group_id,
            name: self.name.clone(),
            email: copy_text(&self.email),
        }
    }
}

/// One member to add to an existing group.
#[derive(Debug, PartialEq, Eq)]
pub struct CreateMemberRequest {
    pub group_id: i64,
    pub name: String,
    pub email: Option<String>,
}

/// The view of a [`CreateMemberRequest`].
pub struct MemberRequestView {
    pub group_id: i64,
    pub name: Seq<char>,
    pub email: Option<Seq<char>>,
}

impl View for CreateMemberRequest {
    type V = MemberRequestView;

    open spec fn view(&self) -> MemberRequestView {
        MemberRequestView {
            group_id: self.group_id,
            name: self.name@,
            email: self.email.deep_view(),
        }
    }
}

impl Clone for CreateMemberRequest {
    fn clone(&self) -> (r: Self)
        ensures
            r@ == self@,
    {
        CreateMemberRequest {
            group_id: self.group_id,
            name: self.name.clone(),
            email: copy_text(&self.email),
        }
    }
}

/// A group together with the members it owns.
#[derive(Debug, PartialEq, Eq)]
pub struct GroupWithMembers {
    pub group: Group,
    pub members: Vec<GroupMember>,
}

/// The view of a [`GroupWithMembers`].
pub struct GroupWithMembersView {
    pub group: GroupView,
    pub members: Seq<MemberView>,
}

impl View for GroupWithMembers {
    type V = GroupWithMembersView;

    open spec fn view(&self) -> GroupWithMembersView {
        GroupWithMembersView { group: self.group@, members: self.members.deep_view() }
    }
}

impl DeepView for GroupWithMembers {
    type V = GroupWithMembersView;

    open spec fn deep_view(&self) -> GroupWithMembersView {
        self@
    }
}

/// An event together with the groups it owns, without their members.
#[derive(Debug, PartialEq, Eq)]
pub struct EventWithGroups {
    pub event: Event,
    pub groups: Vec<Group>,
}

/// The view of an [`EventWithGroups`].
pub struct EventWithGroupsView {
    pub event: EventView,
    pub groups: Seq<GroupView>,
}

impl View for EventWithGroups {
    type V = EventWithGroupsView;

    open spec fn view(&self) -> EventWithGroupsView {
        EventWithGroupsView { event: self.event@, groups: self.groups.deep_view() }
    }
}

} // verus!
