//! A store that keeps its tables in memory.
//!
//! It carries out every statement exactly as the module `store` says, so
//! whatever is proved of an operation against that description holds of
//! the operation run against this store.

use crate::invariants::{lemma_apply_keeps_wf};
use crate::model::{
    CreateEventRequest, Event, EventView, Group, GroupMember, GroupView, MemberView,
    MembersForCreateGroupRequest, Timestamp, is_stamp_after, stamp_after,
};
use crate::protocol::{GroupFields, Reply, Statement, StatementView};
use crate::seqs::{
    lemma_deep_view_insert, lemma_deep_view_push, lemma_deep_view_remove, lemma_filter_all,
    lemma_filter_next, lemma_take_all,
};
use crate::store::{
    StoreView, Tables, apply, is_event_slot, is_first_event, is_first_group, is_group_slot, owns,
    window,
};
use crate::text::{
    duplicate_event_text, ids_exhausted_text, negative_limit_text, no_transaction_text,
    transaction_open_text,
};
use vstd::prelude::*;

verus! {

/// The events that pass `test`, in their order.
fn keep_events<F: Fn(&Event) -> bool>(
    events: &Vec<Event>,
    test: F,
    Ghost(keep): Ghost<spec_fn(EventView) -> bool>,
) -> (out: Vec<Event>)
    requires
        forall|e: &Event| #[trigger] test.requires((e,)),
        forall|e: &Event, r: bool| #[trigger] test.ensures((e,), r) ==> r == keep(e@),
    ensures
        out.deep_view() == events.deep_view().filter(keep),
{
    let mut out: Vec<Event> = Vec::new();
    let mut i: usize = 0;
    while i < events.len()
        invariant
            i <= events.len(),
            forall|e: &Event| #[trigger] test.requires((e,)),
            forall|e: &Event, r: bool| #[trigger] test.ensures((e,), r) ==> r == keep(e@),
            out.deep_view() == events.deep_view().take(i as int).filter(keep),
        decreases events.len() - i,
    {
        proof {
            lemma_filter_next(events.deep_view(), keep, i as int);
        }
        if test(&events[i]) {
            let row = events[i].clone();
            out.push(row);
        }
        i = i + 1;
    }
    proof {
        lemma_take_all(events.deep_view());
    }
    out
}

/// The groups that pass `test`, in their order.
fn keep_groups<F: Fn(&Group) -> bool>(
    groups: &Vec<Group>,
    test: F,
    Ghost(keep): Ghost<spec_fn(GroupView) -> bool>,
) -> (out: Vec<Group>)
    requires
        forall|g: &Group| #[trigger] test.requires((g,)),
        forall|g: &Group, r: bool| #[trigger] test.ensures((g,), r) ==> r == keep(g@),
    ensures
        out.deep_view() == groups.deep_view().filter(keep),
{
    let mut out: Vec<Group> = Vec::new();
    let mut i: usize = 0;
    while i < groups.len()
        invariant
            i <= groups.len(),
            forall|g: &Group| #[trigger] test.requires((g,)),
            forall|g: &Group, r: bool| #[trigger] test.ensures((g,), r) ==> r == keep(g@),
            out.deep_view() == groups.deep_view().take(i as int).filter(keep),
        decreases groups.len() - i,
    {
        proof {
            lemma_filter_next(groups.deep_view(), keep, i as int);
        }
        if test(&groups[i]) {
            let row = groups[i].clone();
            out.push(row);
        }
        i = i + 1;
    }
    proof {
        lemma_take_all(groups.deep_view());
    }
    out
}

/// The members that pass `test`, in their order.
fn keep_members<F: Fn(&GroupMember) -> bool>(
    members: &Vec<GroupMember>,
    test: F,
    Ghost(keep): Ghost<spec_fn(MemberView) -> bool>,
) -> (out: Vec<GroupMember>)
    requires
        forall|m: &GroupMember| #[trigger] test.requires((m,)),
        forall|m: &GroupMember, r: bool| #[trigger] test.ensures((m,), r) ==> r == keep(m@),
    ensures
        out.deep_view() == members.deep_view().filter(keep),
{
    let mut out: Vec<GroupMember> = Vec::new();
    let mut i: usize = 0;
    while i < members.len()
        invariant
            i <= members.len(),
            forall|m: &GroupMember| #[trigger] test.requires((m,)),
            forall|m: &GroupMember, r: bool| #[trigger] test.ensures((m,), r) ==> r == keep(m@),
            out.deep_view() == members.deep_view().take(i as int).filter(keep),
        decreases members.len() - i,
    {
        proof {
            lemma_filter_next(members.deep_view(), keep, i as int);
        }
        if test(&members[i]) {
            let row = members[i].clone();
            out.push(row);
        }
        i = i + 1;
    }
    proof {
        lemma_take_all(members.deep_view());
    }
    out
}

/// Tells whether the group `group_id` is among `groups` and belongs to
/// the event `event_id`.
fn belongs(groups: &Vec<Group>, event_id: &String, group_id: i64) -> (r: bool)
    ensures
        r == owns(groups.deep_view(), event_id@, group_id),
{
    let mut i: usize = 0;
    while i < groups.len()
        invariant
            i <= groups.len(),
            forall|k: int|
                0 <= k < i ==> !((#[trigger] groups.deep_view()[k]).id == group_id
                    && groups.deep_view()[k].event_id == event_id@),
        decreases groups.len() - i,
    {
        if groups[i].id == group_id && groups[i].event_id == *event_id {
            assert(groups.deep_view()[i as int].id == group_id);
            return true;
        }
        i = i + 1;
    }
    false
}

/// Where the first event with the id `id` stands.
fn locate_event(events: &Vec<Event>, id: &String) -> (at: Option<usize>)
    ensures
        at matches Some(i) ==> is_first_event(events.deep_view(), id@, i as int),
        at is None ==> forall|k: int|
            0 <= k < events.len() ==> (#[trigger] events.deep_view()[k]).id != id@,
{
    let mut i: usize = 0;
    while i < events.len()
        invariant
            i <= events.len(),
            forall|k: int| 0 <= k < i ==> (#[trigger] events.deep_view()[k]).id != id@,
        decreases events.len() - i,
    {
        if events[i].id == *id {
            return Some(i);
        }
        i = i + 1;
    }
    None
}

/// Where the first group with the id `id` stands.
fn locate_group(groups: &Vec<Group>, id: i64) -> (at: Option<usize>)
    ensures
        at matches Some(i) ==> is_first_group(groups.deep_view(), id, i as int),
        at is None ==> forall|k: int|
            0 <= k < groups.len() ==> (#[trigger] groups.deep_view()[k]).id != id,
{
    let mut i: usize = 0;
    while i < groups.len()
        invariant
            i <= groups.len(),
            forall|k: int| 0 <= k < i ==> (#[trigger] groups.deep_view()[k]).id != id,
        decreases groups.len() - i,
    {
        if groups[i].id == id {
            return Some(i);
        }
        i = i + 1;
    }
    None
}

/// Tells whether a member with the id `id` is among `members`.
fn holds_member(members: &Vec<GroupMember>, id: i64) -> (r: bool)
    ensures
        r == exists|i: int| 0 <= i < members.len() && (#[trigger] members.deep_view()[i]).id == id,
{
    let mut i: usize = 0;
    while i < members.len()
        invariant
            i <= members.len(),
            forall|k: int| 0 <= k < i ==> (#[trigger] members.deep_view()[k]).id != id,
        decreases members.len() - i,
    {
        if members[i].id == id {
            assert(members.deep_view()[i as int].id == id);
            return true;
        }
        i = i + 1;
    }
    false
}

/// Where an event with the date `date` goes.
fn event_slot(events: &Vec<Event>, date: &Timestamp) -> (at: usize)
    ensures
        is_event_slot(events.deep_view(), *date, at as int),
{
    let mut i: usize = 0;
    while i < events.len() && events[i].date_time.is_after(date)
        invariant
            i <= events.len(),
            forall|k: int| 0 <= k < i ==> (#[trigger] events.deep_view()[k]).date_time.after(*date),
        decreases events.len() - i,
    {
        i = i + 1;
    }
    i
}

/// Where a group created at `stamp` goes.
fn group_slot(groups: &Vec<Group>, stamp: &Option<Timestamp>) -> (at: usize)
    ensures
        is_group_slot(groups.deep_view(), *stamp, at as int),
{
    let mut i: usize = 0;
    while i < groups.len() && is_stamp_after(&groups[i].created_at, stamp)
        invariant
            i <= groups.len(),
            forall|k: int|
                0 <= k < i ==> stamp_after(
                    (#[trigger] groups.deep_view()[k]).created_at,
                    *stamp,
                ),
        decreases groups.len() - i,
    {
        i = i + 1;
    }
    i
}

/// The events of one page.
fn page_of_events(events: &Vec<Event>, limit: i64, offset: i64) -> (out: Vec<Event>)
    ensures
        out.deep_view() == window(events.deep_view(), limit, offset),
{
    let len = events.len();
    let from: usize = if offset < 0 {
        0
    } else if offset as u64 > len as u64 {
        len
    } else {
        offset as usize
    };
    let to: usize = if limit < 0 || limit as u64 >= (len - from) as u64 {
        len
    } else {
        from + limit as usize
    };
    let mut out: Vec<Event> = Vec::new();
    let mut i: usize = from;
    while i < to
        invariant
            from <= i <= to <= events.len(),
            out.deep_view() == events.deep_view().subrange(from as int, i as int),
        decreases to - i,
    {
        let ghost before = out;
        let row = events[i].clone();
        out.push(row);
        proof {
            lemma_deep_view_push(before, out, row);
        }
        i = i + 1;
    }
    out
}

/// The groups of one page.
fn page_of_groups(groups: &Vec<Group>, limit: i64, offset: i64) -> (out: Vec<Group>)
    ensures
        out.deep_view() == window(groups.deep_view(), limit, offset),
{
    let len = groups.len();
    let from: usize = if offset < 0 {
        0
    } else if offset as u64 > len as u64 {
        len
    } else {
        offset as usize
    };
    let to: usize = if limit < 0 || limit as u64 >= (len - from) as u64 {
        len
    } else {
        from + limit as usize
    };
    let mut out: Vec<Group> = Vec::new();
    let mut i: usize = from;
    while i < to
        invariant
            from <= i <= to <= groups.len(),
            out.deep_view() == groups.deep_view().subrange(from as int, i as int),
        decreases to - i,
    {
        let ghost before = out;
        let row = groups[i].clone();
        out.push(row);
        proof {
            lemma_deep_view_push(before, out, row);
        }
        i = i + 1;
    }
    out
}

/// The tables of a store.
struct Rows {
    events: Vec<Event>,
    groups: Vec<Group>,
    members: Vec<GroupMember>,
    next_group_id: i64,
    next_member_id: i64,
}

impl View for Rows {
    type V = Tables;

    closed spec fn view(&self) -> Tables {
        Tables {
            events: self.events.deep_view(),
            groups: self.groups.deep_view(),
            members: self.members.deep_view(),
            next_group_id: self.next_group_id,
            next_member_id: self.next_member_id,
        }
    }
}

impl Rows {
    /// A copy of the tables.
    fn copy(&self) -> (r: Rows)
        ensures
            r@ == self@,
    {
        let events = keep_events(
            &self.events,
            (|_e: &Event| -> (r: bool)
                ensures
                    r,
                {
                    let pass: bool = true;
                    pass
                }),
            Ghost(|e: EventView| true),
        );
        let groups = keep_groups(
            &self.groups,
            (|_g: &Group| -> (r: bool)
                ensures
                    r,
                {
                    let pass: bool = true;
                    pass
                }),
            Ghost(|g: GroupView| true),
        );
        let members = keep_members(
            &self.members,
            (|_m: &GroupMember| -> (r: bool)
                ensures
                    r,
                {
                    let pass: bool = true;
                    pass
                }),
            Ghost(|m: MemberView| true),
        );
        proof {
            lemma_filter_all(self.events.deep_view(), |e: EventView| true);
            lemma_filter_all(self.groups.deep_view(), |g: GroupView| true);
            lemma_filter_all(self.members.deep_view(), |m: MemberView| true);
        }
        Rows {
            events,
            groups,
            members,
            next_group_id: self.next_group_id,
            next_member_id: self.next_member_id,
        }
    }
}

/// A store in memory.
pub struct MemoryStore {
    live: Rows,
    saved: Option<Rows>,
}

impl View for MemoryStore {
    type V = StoreView;

    closed spec fn view(&self) -> StoreView {
        StoreView {
            live: self.live@,
            saved: match self.saved {
                Some(rows) => Some(rows@),
                None => None,
            },
        }
    }
}

impl MemoryStore {
    /// An empty store with no transaction open.
    pub fn new() -> (s: MemoryStore)
        ensures
            s@ == (StoreView { live: Tables::empty(), saved: None }),
            s@.wf(),
    {
        let events: Vec<Event> = Vec::new();
        let groups: Vec<Group> = Vec::new();
        let members: Vec<GroupMember> = Vec::new();
        assert(events.deep_view() =~= Seq::empty());
        assert(groups.deep_view() =~= Seq::empty());
        assert(members.deep_view() =~= Seq::empty());
        MemoryStore {
            live: Rows { events, groups, members, next_group_id: 1, next_member_id: 1 },
            saved: None,
        }
    }

    /// Ends whatever is under way: a transaction that is still open is
    /// rolled back.
    pub fn settle(&mut self)
        requires
            old(self)@.wf(),
        ensures
            final(self)@ == old(self)@.settled(),
            final(self)@.wf(),
    {
        let saved = self.saved.take();
        match saved {
            Some(rows) => {
                self.live = rows;
            },
            None => {},
        }
    }
}

impl MemoryStore {
    fn begin(&mut self) -> (reply: Reply)
        ensures
            (final(self)@, reply@) == apply(old(self)@, StatementView::Begin, arbitrary()),
    {
        if self.saved.is_some() {
            Reply::Failed(transaction_open_text())
        } else {
            self.saved = Some(self.live.copy());
            Reply::Done
        }
    }

    fn commit(&mut self) -> (reply: Reply)
        ensures
            (final(self)@, reply@) == apply(old(self)@, StatementView::Commit, arbitrary()),
    {
        if self.saved.is_none() {
            Reply::Failed(no_transaction_text())
        } else {
            self.saved = None;
            Reply::Done
        }
    }

    fn insert_event(&mut self, id: String, fields: CreateEventRequest, now: Timestamp) -> (reply:
        Reply)
        ensures
            (final(self)@, reply@) == apply(
                old(self)@,
                StatementView::InsertEvent { id: id@, fields: fields@ },
                now,
            ),
    {
        if fields.group_size_limit < 0 {
            return Reply::Failed(negative_limit_text());
        }
        match locate_event(&self.live.events, &id) {
            Some(_) => Reply::Failed(duplicate_event_text()),
            None => {
                let row = Event {
                    id,
                    name: fields.name,
                    date_time: fields.date_time,
                    group_size_limit: fields.group_size_limit,
                    location: fields.location,
                    created_at: Some(now),
                };
                let at = event_slot(&self.live.events, &row.date_time);
                let reply = Reply::Event(Some(row.clone()));
                let ghost before = self.live.events;
                self.live.events.insert(at, row);
                proof {
                    lemma_deep_view_insert(before, self.live.events, at as int, row);
                }
                reply
            },
        }
    }

    fn select_event(&self, id: String) -> (reply: Reply)
        ensures
            (self@, reply@) == apply(self@, StatementView::SelectEvent { id: id@ }, arbitrary()),
    {
        match locate_event(&self.live.events, &id) {
            Some(at) => {
                Reply::Event(Some(self.live.events[at].clone()))
            },
            None => Reply::Event(None),
        }
    }

    fn update_event(&mut self, id: String, fields: CreateEventRequest) -> (reply: Reply)
        ensures
            (final(self)@, reply@) == apply(
                old(self)@,
                StatementView::UpdateEvent { id: id@, fields: fields@ },
                arbitrary(),
            ),
    {
        if fields.group_size_limit < 0 {
            return Reply::Failed(negative_limit_text());
        }
        match locate_event(&self.live.events, &id) {
            Some(place) => {
                let ghost before = self.live.events;
                let old = self.live.events.remove(place);
                let ghost between = self.live.events;
                proof {
                    lemma_deep_view_remove(before, between, place as int);
                }
                let row = Event {
                    id: old.id,
                    name: fields.name,
                    date_time: fields.date_time,
                    group_size_limit: fields.group_size_limit,
                    location: fields.location,
                    created_at: old.created_at,
                };
                let at = event_slot(&self.live.events, &row.date_time);
                let reply = Reply::Event(Some(row.clone()));
                self.live.events.insert(at, row);
                proof {
                    lemma_deep_view_insert(between, self.live.events, at as int, row);
                }
                reply
            },
            None => Reply::Event(None),
        }
    }

    fn event_exists(&self, id: String) -> (reply: Reply)
        ensures
            (self@, reply@) == apply(self@, StatementView::EventExists { id: id@ }, arbitrary()),
    {
        Reply::Flag(locate_event(&self.live.events, &id).is_some())
    }

    fn delete_event(&mut self, id: String) -> (reply: Reply)
        ensures
            (final(self)@, reply@) == apply(
                old(self)@,
                StatementView::DeleteEvent { id: id@ },
                arbitrary(),
            ),
    {
        let kept = keep_events(
            &self.live.events,
            (|e: &Event| -> (r: bool)
                ensures
                    r == (e@.id != id@),
                {
                    !(e.id == id)
                }),
            Ghost(|e: EventView| e.id != id@),
        );
        self.live.events = kept;
        Reply::Done
    }

    fn insert_group(&mut self, event_id: String, fields: GroupFields, now: Timestamp) -> (reply:
        Reply)
        ensures
            (final(self)@, reply@) == apply(
                old(self)@,
                StatementView::InsertGroup { event_id: event_id@, fields: fields@ },
                now,
            ),
    {
        if self.live.next_group_id == i64::MAX {
            Reply::Failed(ids_exhausted_text())
        } else {
            let row = Group {
                id: self.live.next_group_id,
                event_id,
                creator_name: fields.creator_name,
                creator_email: fields.creator_email,
                group_name: fields.group_name,
                accepts_others: fields.accepts_others,
                project_description: fields.project_description,
                created_at: Some(now),
            };
            let at = group_slot(&self.live.groups, &row.created_at);
            let reply = Reply::Group(Some(row.clone()));
            let ghost before = self.live.groups;
            self.live.groups.insert(at, row);
            self.live.next_group_id = self.live.next_group_id + 1;
            proof {
                lemma_deep_view_insert(before, self.live.groups, at as int, row);
            }
            reply
        }
    }

    fn select_group(&self, id: i64) -> (reply: Reply)
        ensures
            (self@, reply@) == apply(self@, StatementView::SelectGroup { id }, arbitrary()),
    {
        match locate_group(&self.live.groups, id) {
            Some(at) => {
                Reply::Group(Some(self.live.groups[at].clone()))
            },
            None => Reply::Group(None),
        }
    }

    fn update_group(&mut self, id: i64, fields: GroupFields) -> (reply: Reply)
        ensures
            (final(self)@, reply@) == apply(
                old(self)@,
                StatementView::UpdateGroup { id, fields: fields@ },
                arbitrary(),
            ),
    {
        let ghost t = self@.live;
        match locate_group(&self.live.groups, id) {
            Some(place) => {
                let old = self.live.groups.remove(place);
                let row = Group {
                    id: old.id,
                    event_id: old.event_id,
                    creator_name: fields.creator_name,
                    creator_email: fields.creator_email,
                    group_name: fields.group_name,
                    accepts_others: fields.accepts_others,
                    project_description: fields.project_description,
                    created_at: old.created_at,
                };
                let reply = Reply::Group(Some(row.clone()));
                self.live.groups.insert(place, row);
                proof {
                    assert(self.live.groups.deep_view() =~= t.groups.update(place as int, row@));
                }
                reply
            },
            None => Reply::Group(None),
        }
    }

    fn group_exists(&self, id: i64) -> (reply: Reply)
        ensures
            (self@, reply@) == apply(self@, StatementView::GroupExists { id }, arbitrary()),
    {
        Reply::Flag(locate_group(&self.live.groups, id).is_some())
    }

    fn delete_group(&mut self, id: i64) -> (reply: Reply)
        ensures
            (final(self)@, reply@) == apply(
                old(self)@,
                StatementView::DeleteGroup { id },
                arbitrary(),
            ),
    {
        let kept = keep_groups(
            &self.live.groups,
            (|g: &Group| -> (r: bool)
                ensures
                    r == (g@.id != id),
                {
                    g.id != id
                }),
            Ghost(|g: GroupView| g.id != id),
        );
        self.live.groups = kept;
        Reply::Done
    }

    fn select_groups_of_event(&self, event_id: String) -> (reply: Reply)
        ensures
            (self@, reply@) == apply(
                self@,
                StatementView::SelectGroupsOfEvent { event_id: event_id@ },
                arbitrary(),
            ),
    {
        let found = keep_groups(
            &self.live.groups,
            (|g: &Group| -> (r: bool)
                ensures
                    r == (g@.event_id == event_id@),
                {
                    g.event_id == event_id
                }),
            Ghost(|g: GroupView| g.event_id == event_id@),
        );
        Reply::Groups(found)
    }

    fn delete_groups_of_event(&mut self, event_id: String) -> (reply: Reply)
        ensures
            (final(self)@, reply@) == apply(
                old(self)@,
                StatementView::DeleteGroupsOfEvent { event_id: event_id@ },
                arbitrary(),
            ),
    {
        let kept = keep_groups(
            &self.live.groups,
            (|g: &Group| -> (r: bool)
                ensures
                    r == (g@.event_id != event_id@),
                {
                    !(g.event_id == event_id)
                }),
            Ghost(|g: GroupView| g.event_id != event_id@),
        );
        self.live.groups = kept;
        Reply::Done
    }

    fn insert_member(&mut self, group_id: i64, member: MembersForCreateGroupRequest) -> (reply:
        Reply)
        ensures
            (final(self)@, reply@) == apply(
                old(self)@,
                StatementView::InsertMember { group_id, member: member@ },
                arbitrary(),
            ),
    {
        if self.live.next_member_id == i64::MAX {
            Reply::Failed(ids_exhausted_text())
        } else {
            let row = GroupMember {
                id: self.live.next_member_id,
                group_id,
                name: member.name,
                email: member.email,
            };
            let reply = Reply::Member(row.clone());
            let ghost before = self.live.members;
            self.live.members.push(row);
            self.live.next_member_id = self.live.next_member_id + 1;
            proof {
                lemma_deep_view_push(before, self.live.members, row);
            }
            reply
        }
    }

    fn select_members_of_group(&self, group_id: i64) -> (reply: Reply)
        ensures
            (self@, reply@) == apply(
                self@,
                StatementView::SelectMembersOfGroup { group_id },
                arbitrary(),
            ),
    {
        let found = keep_members(
            &self.live.members,
            (|m: &GroupMember| -> (r: bool)
                ensures
                    r == (m@.group_id == group_id),
                {
                    m.group_id == group_id
                }),
            Ghost(|m: MemberView| m.group_id == group_id),
        );
        Reply::Members(found)
    }

    fn select_members_of_event(&self, event_id: String) -> (reply: Reply)
        ensures
            (self@, reply@) == apply(
                self@,
                StatementView::SelectMembersOfEvent { event_id: event_id@ },
                arbitrary(),
            ),
    {
        let groups = &self.live.groups;
        let found = keep_members(
            &self.live.members,
            (|m: &GroupMember| -> (r: bool)
                ensures
                    r == owns(groups.deep_view(), event_id@, m@.group_id),
                {
                    belongs(groups, &event_id, m.group_id)
                }),
            Ghost(|m: MemberView| owns(groups.deep_view(), event_id@, m.group_id)),
        );
        Reply::Members(found)
    }

    fn count_members_of_group(&self, group_id: i64) -> (reply: Reply)
        requires
            self@.wf(),
        ensures
            (self@, reply@) == apply(
                self@,
                StatementView::CountMembersOfGroup { group_id },
                arbitrary(),
            ),
    {
        let found = keep_members(
            &self.live.members,
            (|m: &GroupMember| -> (r: bool)
                ensures
                    r == (m@.group_id == group_id),
                {
                    m.group_id == group_id
                }),
            Ghost(|m: MemberView| m.group_id == group_id),
        );
        Reply::Count(found.len() as i64)
    }

    fn member_exists(&self, id: i64) -> (reply: Reply)
        ensures
            (self@, reply@) == apply(self@, StatementView::MemberExists { id }, arbitrary()),
    {
        Reply::Flag(holds_member(&self.live.members, id))
    }

    fn delete_member(&mut self, id: i64) -> (reply: Reply)
        ensures
            (final(self)@, reply@) == apply(
                old(self)@,
                StatementView::DeleteMember { id },
                arbitrary(),
            ),
    {
        let kept = keep_members(
            &self.live.members,
            (|m: &GroupMember| -> (r: bool)
                ensures
                    r == (m@.id != id),
                {
                    m.id != id
                }),
            Ghost(|m: MemberView| m.id != id),
        );
        self.live.members = kept;
        Reply::Done
    }

    fn delete_members_of_group(&mut self, group_id: i64) -> (reply: Reply)
        ensures
            (final(self)@, reply@) == apply(
                old(self)@,
                StatementView::DeleteMembersOfGroup { group_id },
                arbitrary(),
            ),
    {
        let kept = keep_members(
            &self.live.members,
            (|m: &GroupMember| -> (r: bool)
                ensures
                    r == (m@.group_id != group_id),
                {
                    m.group_id != group_id
                }),
            Ghost(|m: MemberView| m.group_id != group_id),
        );
        self.live.members = kept;
        Reply::Done
    }

    fn delete_members_of_event(&mut self, event_id: String) -> (reply: Reply)
        ensures
            (final(self)@, reply@) == apply(
                old(self)@,
                StatementView::DeleteMembersOfEvent { event_id: event_id@ },
                arbitrary(),
            ),
    {
        let groups = &self.live.groups;
        let kept = keep_members(
            &self.live.members,
            (|m: &GroupMember| -> (r: bool)
                ensures
                    r == !owns(groups.deep_view(), event_id@, m@.group_id),
                {
                    !belongs(groups, &event_id, m.group_id)
                }),
            Ghost(|m: MemberView| !owns(groups.deep_view(), event_id@, m.group_id)),
        );
        self.live.members = kept;
        Reply::Done
    }

    /// Carries out one statement and gives the store's reply. `now` is the
    /// time that a new event or group is stamped with.
    pub fn execute(&mut self, statement: Statement, now: Timestamp) -> (reply: Reply)
        requires
            old(self)@.wf(),
        ensures
            (final(self)@, reply@) == apply(old(self)@, statement@, now),
            final(self)@.wf(),
    {
        proof {
            lemma_apply_keeps_wf(self@, statement@, now);
        }
        match statement {
            Statement::Begin => self.begin(),
            Statement::Commit => self.commit(),
            Statement::ListEvents { limit, offset } => Reply::Events(
                page_of_events(&self.live.events, limit, offset),
            ),
            Statement::InsertEvent { id, fields } => self.insert_event(id, fields, now),
            Statement::SelectEvent { id } => self.select_event(id),
            Statement::UpdateEvent { id, fields } => self.update_event(id, fields),
            Statement::EventExists { id } => self.event_exists(id),
            Statement::DeleteEvent { id } => self.delete_event(id),
            Statement::ListGroups { limit, offset } => Reply::Groups(
                page_of_groups(&self.live.groups, limit, offset),
            ),
            Statement::InsertGroup { event_id, fields } => self.insert_group(event_id, fields, now),
            Statement::SelectGroup { id } => self.select_group(id),
            Statement::UpdateGroup { id, fields } => self.update_group(id, fields),
            Statement::GroupExists { id } => self.group_exists(id),
            Statement::DeleteGroup { id } => self.delete_group(id),
            Statement::SelectGroupsOfEvent { event_id } => self.select_groups_of_event(event_id),
            Statement::DeleteGroupsOfEvent { event_id } => self.delete_groups_of_event(event_id),
            Statement::InsertMember { group_id, member } => self.insert_member(group_id, member),
            Statement::SelectMembersOfGroup { group_id } => self.select_members_of_group(group_id),
            Statement::SelectMembersOfEvent { event_id } => self.select_members_of_event(event_id),
            Statement::CountMembersOfGroup { group_id } => self.count_members_of_group(group_id),
            Statement::MemberExists { id } => self.member_exists(id),
            Statement::DeleteMember { id } => self.delete_member(id),
            Statement::DeleteMembersOfGroup { group_id } => self.delete_members_of_group(group_id),
            Statement::DeleteMembersOfEvent { event_id } => self.delete_members_of_event(event_id),
        }
    }
}

} // verus!
