//! What a store holds and what every statement does to it, as mathematics.
//!
//! The three tables are sequences of rows. Events stand in the order in
//! which they are listed, latest `date_time` first, and groups likewise,
//! latest `created_at` first. Members stand in the order in which they
//! were stored. A store refuses an event whose limit on the size of its
//! groups is below zero. Nothing in a store ties a group to an existing
//! event or a member to an existing group: that is the business of the
//! operations.

use crate::assemble::members_of;
use crate::model::{
    EventFieldsView, EventView, GroupView, MemberView, NewMemberView, Timestamp, stamp_after,
};
use crate::protocol::{GroupFieldsView, ReplyView, StatementView};
use crate::text::{
    duplicate_event, ids_exhausted, negative_limit, no_transaction, transaction_open,
};
use vstd::prelude::*;

verus! {

/// The rows of a page: skip `offset` rows, then take at most `limit`. A
/// negative offset skips nothing and a negative limit takes all.
pub open spec fn window<T>(rows: Seq<T>, limit: i64, offset: i64) -> Seq<T> {
    let from: int = if offset < 0 {
        0
    } else if offset > rows.len() {
        rows.len() as int
    } else {
        offset as int
    };
    let rest = rows.skip(from);
    if limit < 0 || limit >= rest.len() {
        rest
    } else {
        rest.take(limit as int)
    }
}

/// An event with the id `id` stands somewhere among `events`.
pub open spec fn holds_event(events: Seq<EventView>, id: Seq<char>) -> bool {
    exists|i: int| 0 <= i < events.len() && (#[trigger] events[i]).id == id
}

/// A group with the id `id` stands somewhere among `groups`.
pub open spec fn holds_group(groups: Seq<GroupView>, id: i64) -> bool {
    exists|i: int| 0 <= i < groups.len() && (#[trigger] groups[i]).id == id
}

/// A member with the id `id` stands somewhere among `members`.
pub open spec fn holds_member(members: Seq<MemberView>, id: i64) -> bool {
    exists|i: int| 0 <= i < members.len() && (#[trigger] members[i]).id == id
}

/// `at` is the place of the first event with the id `id`.
pub open spec fn is_first_event(events: Seq<EventView>, id: Seq<char>, at: int) -> bool {
    &&& 0 <= at < events.len()
    &&& events[at].id == id
    &&& forall|k: int| 0 <= k < at ==> (#[trigger] events[k]).id != id
}

/// `at` is the place of the first group with the id `id`.
pub open spec fn is_first_group(groups: Seq<GroupView>, id: i64, at: int) -> bool {
    &&& 0 <= at < groups.len()
    &&& groups[at].id == id
    &&& forall|k: int| 0 <= k < at ==> (#[trigger] groups[k]).id != id
}

/// `at` is where an event with the date `date` goes: behind every event
/// that is later, before the first that is not.
pub open spec fn is_event_slot(events: Seq<EventView>, date: Timestamp, at: int) -> bool {
    &&& 0 <= at <= events.len()
    &&& forall|k: int| 0 <= k < at ==> (#[trigger] events[k]).date_time.after(date)
    &&& at < events.len() ==> !events[at].date_time.after(date)
}

/// `at` is where a group created at `stamp` goes: behind every group that
/// was created later, before the first that was not.
pub open spec fn is_group_slot(groups: Seq<GroupView>, stamp: Option<Timestamp>, at: int) -> bool {
    &&& 0 <= at <= groups.len()
    &&& forall|k: int| 0 <= k < at ==> stamp_after((#[trigger] groups[k]).created_at, stamp)
    &&& at < groups.len() ==> !stamp_after(groups[at].created_at, stamp)
}

/// The event row that is stored for new fields.
pub open spec fn new_event(id: Seq<char>, fields: EventFieldsView, now: Timestamp) -> EventView {
    EventView {
        id,
        name: fields.name,
        date_time: fields.date_time,
        group_size_limit: fields.group_size_limit,
        location: fields.location,
        created_at: Some(now),
    }
}

/// An event row with its client-supplied fields replaced.
pub open spec fn changed_event(row: EventView, fields: EventFieldsView) -> EventView {
    EventView {
        id: row.id,
        name: fields.name,
        date_time: fields.date_time,
        group_size_limit: fields.group_size_limit,
        location: fields.location,
        created_at: row.created_at,
    }
}

/// The group row that is stored for new fields.
pub open spec fn new_group(
    id: i64,
    event_id: Seq<char>,
    fields: GroupFieldsView,
    now: Timestamp,
) -> GroupView {
    GroupView {
        id,
        event_id,
        creator_name: fields.creator_name,
        creator_email: fields.creator_email,
        group_name: fields.group_name,
        accepts_others: fields.accepts_others,
        project_description: fields.project_description,
        created_at: Some(now),
    }
}

/// A group row with its settable fields replaced.
pub open spec fn changed_group(row: GroupView, fields: GroupFieldsView) -> GroupView {
    GroupView {
        id: row.id,
        event_id: row.event_id,
        creator_name: fields.creator_name,
        creator_email: fields.creator_email,
        group_name: fields.group_name,
        accepts_others: fields.accepts_others,
        project_description: fields.project_description,
        created_at: row.created_at,
    }
}

/// The member row that is stored for a requested member.
pub open spec fn new_member(id: i64, group_id: i64, member: NewMemberView) -> MemberView {
    MemberView { id, group_id, name: member.name, email: member.email }
}

/// The groups of the event `event_id`, in the order of `groups`.
pub open spec fn groups_of(groups: Seq<GroupView>, event_id: Seq<char>) -> Seq<GroupView> {
    groups.filter(|g: GroupView| g.event_id == event_id)
}

/// The group `group_id` is among `groups` and belongs to the event
/// `event_id`.
pub open spec fn owns(groups: Seq<GroupView>, event_id: Seq<char>, group_id: i64) -> bool {
    exists|i: int|
        0 <= i < groups.len() && (#[trigger] groups[i]).id == group_id && groups[i].event_id
            == event_id
}

/// The members of all groups of the event `event_id`.
pub open spec fn members_under(
    members: Seq<MemberView>,
    groups: Seq<GroupView>,
    event_id: Seq<char>,
) -> Seq<MemberView> {
    members.filter(|m: MemberView| owns(groups, event_id, m.group_id))
}

/// The events with `row` put where its date belongs.
pub open spec fn events_with(events: Seq<EventView>, row: EventView) -> Seq<EventView> {
    events.insert(choose|at: int| is_event_slot(events, row.date_time, at), row)
}

/// The groups with `row` put where the time of its creation belongs.
pub open spec fn groups_with(groups: Seq<GroupView>, row: GroupView) -> Seq<GroupView> {
    groups.insert(choose|at: int| is_group_slot(groups, row.created_at, at), row)
}

/// The events without the one named `id`.
pub open spec fn events_without(events: Seq<EventView>, id: Seq<char>) -> Seq<EventView> {
    events.filter(|e: EventView| e.id != id)
}

/// The groups without the one numbered `id`.
pub open spec fn groups_without(groups: Seq<GroupView>, id: i64) -> Seq<GroupView> {
    groups.filter(|g: GroupView| g.id != id)
}

/// The groups without those of the event `event_id`.
pub open spec fn groups_outside(groups: Seq<GroupView>, event_id: Seq<char>) -> Seq<GroupView> {
    groups.filter(|g: GroupView| g.event_id != event_id)
}

/// The members without the one numbered `id`.
pub open spec fn members_without(members: Seq<MemberView>, id: i64) -> Seq<MemberView> {
    members.filter(|m: MemberView| m.id != id)
}

/// The members without those of the group `group_id`.
pub open spec fn members_outside(members: Seq<MemberView>, group_id: i64) -> Seq<MemberView> {
    members.filter(|m: MemberView| m.group_id != group_id)
}

/// The members without those of the groups of the event `event_id`.
pub open spec fn members_beyond(
    members: Seq<MemberView>,
    groups: Seq<GroupView>,
    event_id: Seq<char>,
) -> Seq<MemberView> {
    members.filter(|m: MemberView| !owns(groups, event_id, m.group_id))
}

/// No id stands twice, the events stand latest first, and no limit is
/// below zero.
pub open spec fn events_wf(events: Seq<EventView>) -> bool {
    &&& forall|i: int| 0 <= i < events.len() ==> (#[trigger] events[i]).group_size_limit >= 0
    &&& forall|i: int, j: int|
        0 <= i < j < events.len() ==> (#[trigger] events[i]).id != (#[trigger] events[j]).id
    &&& forall|i: int, j: int|
        0 <= i < j < events.len() ==> !(#[trigger] events[j]).date_time.after(
            (#[trigger] events[i]).date_time,
        )
}

/// No id stands twice, every id is below `next`, and the groups stand
/// latest first.
pub open spec fn groups_wf(groups: Seq<GroupView>, next: i64) -> bool {
    &&& forall|i: int, j: int|
        0 <= i < j < groups.len() ==> (#[trigger] groups[i]).id != (#[trigger] groups[j]).id
    &&& forall|i: int, j: int|
        0 <= i < j < groups.len() ==> !stamp_after(
            (#[trigger] groups[j]).created_at,
            (#[trigger] groups[i]).created_at,
        )
    &&& forall|i: int| 0 <= i < groups.len() ==> (#[trigger] groups[i]).id < next
}

/// No id stands twice, every id is below `next`, and there are fewer
/// members than `next`.
pub open spec fn members_wf(members: Seq<MemberView>, next: i64) -> bool {
    &&& forall|i: int, j: int|
        0 <= i < j < members.len() ==> (#[trigger] members[i]).id != (#[trigger] members[j]).id
    &&& forall|i: int| 0 <= i < members.len() ==> (#[trigger] members[i]).id < next
    &&& members.len() < next
}

/// The three tables and the two counters that fresh ids come from.
pub struct Tables {
    pub events: Seq<EventView>,
    pub groups: Seq<GroupView>,
    pub members: Seq<MemberView>,
    pub next_group_id: i64,
    pub next_member_id: i64,
}

impl Tables {
    /// No rows; ids start at one.
    pub open spec fn empty() -> Tables {
        Tables {
            events: Seq::empty(),
            groups: Seq::empty(),
            members: Seq::empty(),
            next_group_id: 1,
            next_member_id: 1,
        }
    }

    /// Every table is well-formed.
    pub open spec fn wf(self) -> bool {
        &&& events_wf(self.events)
        &&& groups_wf(self.groups, self.next_group_id)
        &&& members_wf(self.members, self.next_member_id)
    }

    /// Nothing is orphaned: every group belongs to an event that is
    /// there, and every member to a group that is there.
    pub open spec fn consistent(self) -> bool {
        &&& forall|i: int|
            0 <= i < self.groups.len() ==> self.has_event((#[trigger] self.groups[i]).event_id)
        &&& forall|i: int|
            0 <= i < self.members.len() ==> self.has_group((#[trigger] self.members[i]).group_id)
    }

    /// There is an event with the id `id`.
    pub open spec fn has_event(self, id: Seq<char>) -> bool {
        holds_event(self.events, id)
    }

    /// Where the first event with the id `id` stands, if there is one.
    pub open spec fn event_place(self, id: Seq<char>) -> int {
        choose|at: int| is_first_event(self.events, id, at)
    }

    /// The event `id`, if there is one.
    pub open spec fn event(self, id: Seq<char>) -> Option<EventView> {
        if self.has_event(id) {
            Some(self.events[self.event_place(id)])
        } else {
            None
        }
    }

    /// There is a group with the id `id`.
    pub open spec fn has_group(self, id: i64) -> bool {
        holds_group(self.groups, id)
    }

    /// Where the first group with the id `id` stands, if there is one.
    pub open spec fn group_place(self, id: i64) -> int {
        choose|at: int| is_first_group(self.groups, id, at)
    }

    /// The group `id`, if there is one.
    pub open spec fn group(self, id: i64) -> Option<GroupView> {
        if self.has_group(id) {
            Some(self.groups[self.group_place(id)])
        } else {
            None
        }
    }

    /// There is a member with the id `id`.
    pub open spec fn has_member(self, id: i64) -> bool {
        holds_member(self.members, id)
    }

    /// How many members the group `group_id` has.
    pub open spec fn member_count(self, group_id: i64) -> nat {
        members_of(self.members, group_id).len()
    }

    /// The tables with `events` in place of the events.
    pub open spec fn with_events(self, events: Seq<EventView>) -> Tables {
        Tables { events, ..self }
    }

    /// The tables with `groups` in place of the groups.
    pub open spec fn with_groups(self, groups: Seq<GroupView>) -> Tables {
        Tables { groups, ..self }
    }

    /// The tables with `members` in place of the members.
    pub open spec fn with_members(self, members: Seq<MemberView>) -> Tables {
        Tables { members, ..self }
    }

    /// The tables after storing a group under the next fresh id.
    pub open spec fn with_new_group(self, row: GroupView) -> Tables {
        Tables {
            groups: groups_with(self.groups, row),
            next_group_id: (self.next_group_id + 1) as i64,
            ..self
        }
    }

    /// The tables after storing a member under the next fresh id.
    pub open spec fn with_new_member(self, row: MemberView) -> Tables {
        Tables {
            members: self.members.push(row),
            next_member_id: (self.next_member_id + 1) as i64,
            ..self
        }
    }
}

/// A store: its tables as they are now and, while a transaction is open,
/// as they were when it was opened.
pub struct StoreView {
    pub live: Tables,
    pub saved: Option<Tables>,
}

impl StoreView {
    pub open spec fn wf(self) -> bool {
        &&& self.live.wf()
        &&& self.saved matches Some(tables) ==> tables.wf()
    }

    /// The store with `tables` in place of the live tables.
    pub open spec fn with(self, tables: Tables) -> StoreView {
        StoreView { live: tables, saved: self.saved }
    }

    /// The store once an operation is over: a transaction that is still
    /// open is rolled back.
    pub open spec fn settled(self) -> StoreView {
        match self.saved {
            Some(tables) => StoreView { live: tables, saved: None },
            None => self,
        }
    }
}

/// What one statement does to a store, and what the store replies. `now`
/// is the time that new events and groups are stamped with.
pub open spec fn apply(store: StoreView, statement: StatementView, now: Timestamp) -> (
    StoreView,
    ReplyView,
) {
    let t = store.live;
    match statement {
        StatementView::Begin => if store.saved is Some {
            (store, ReplyView::Failed(transaction_open()))
        } else {
            (StoreView { live: t, saved: Some(t) }, ReplyView::Done)
        },
        StatementView::Commit => if store.saved is None {
            (store, ReplyView::Failed(no_transaction()))
        } else {
            (StoreView { live: t, saved: None }, ReplyView::Done)
        },
        StatementView::ListEvents { limit, offset } => (
            store,
            ReplyView::Events(window(t.events, limit, offset)),
        ),
        StatementView::InsertEvent { id, fields } => if fields.group_size_limit < 0 {
            (store, ReplyView::Failed(negative_limit()))
        } else if t.has_event(id) {
            (store, ReplyView::Failed(duplicate_event()))
        } else {
            let row = new_event(id, fields, now);
            (store.with(t.with_events(events_with(t.events, row))), ReplyView::Event(Some(row)))
        },
        StatementView::SelectEvent { id } => (store, ReplyView::Event(t.event(id))),
        StatementView::UpdateEvent { id, fields } => if fields.group_size_limit < 0 {
            (store, ReplyView::Failed(negative_limit()))
        } else {
            match t.event(id) {
                Some(old) => {
                    let row = changed_event(old, fields);
                    let rest = t.events.remove(t.event_place(id));
                    (
                        store.with(t.with_events(events_with(rest, row))),
                        ReplyView::Event(Some(row)),
                    )
                },
                None => (store, ReplyView::Event(None)),
            }
        },
        StatementView::EventExists { id } => (store, ReplyView::Flag(t.has_event(id))),
        StatementView::DeleteEvent { id } => (
            store.with(t.with_events(events_without(t.events, id))),
            ReplyView::Done,
        ),
        StatementView::ListGroups { limit, offset } => (
            store,
            ReplyView::Groups(window(t.groups, limit, offset)),
        ),
        StatementView::InsertGroup { event_id, fields } => if t.next_group_id == i64::MAX {
            (store, ReplyView::Failed(ids_exhausted()))
        } else {
            let row = new_group(t.next_group_id, event_id, fields, now);
            (store.with(t.with_new_group(row)), ReplyView::Group(Some(row)))
        },
        StatementView::SelectGroup { id } => (store, ReplyView::Group(t.group(id))),
        StatementView::UpdateGroup { id, fields } => match t.group(id) {
            Some(old) => {
                let row = changed_group(old, fields);
                (
                    store.with(t.with_groups(t.groups.update(t.group_place(id), row))),
                    ReplyView::Group(Some(row)),
                )
            },
            None => (store, ReplyView::Group(None)),
        },
        StatementView::GroupExists { id } => (store, ReplyView::Flag(t.has_group(id))),
        StatementView::DeleteGroup { id } => (
            store.with(t.with_groups(groups_without(t.groups, id))),
            ReplyView::Done,
        ),
        StatementView::SelectGroupsOfEvent { event_id } => (
            store,
            ReplyView::Groups(groups_of(t.groups, event_id)),
        ),
        StatementView::DeleteGroupsOfEvent { event_id } => (
            store.with(t.with_groups(groups_outside(t.groups, event_id))),
            ReplyView::Done,
        ),
        StatementView::InsertMember { group_id, member } => if t.next_member_id == i64::MAX {
            (store, ReplyView::Failed(ids_exhausted()))
        } else {
            let row = new_member(t.next_member_id, group_id, member);
            (store.with(t.with_new_member(row)), ReplyView::Member(row))
        },
        StatementView::SelectMembersOfGroup { group_id } => (
            store,
            ReplyView::Members(members_of(t.members, group_id)),
        ),
        StatementView::SelectMembersOfEvent { event_id } => (
            store,
            ReplyView::Members(members_under(t.members, t.groups, event_id)),
        ),
        StatementView::CountMembersOfGroup { group_id } => (
            store,
            ReplyView::Count(t.member_count(group_id) as i64),
        ),
        StatementView::MemberExists { id } => (store, ReplyView::Flag(t.has_member(id))),
        StatementView::DeleteMember { id } => (
            store.with(t.with_members(members_without(t.members, id))),
            ReplyView::Done,
        ),
        StatementView::DeleteMembersOfGroup { group_id } => (
            store.with(t.with_members(members_outside(t.members, group_id))),
            ReplyView::Done,
        ),
        StatementView::DeleteMembersOfEvent { event_id } => (
            store.with(t.with_members(members_beyond(t.members, t.groups, event_id))),
            ReplyView::Done,
        ),
    }
}

} // verus!
