//! Every statement leaves a well-formed store well-formed.

use crate::model::{EventView, GroupView, MemberView, Timestamp, stamp_after};
use crate::protocol::StatementView;
use crate::seqs::{lemma_filter_items, lemma_filter_keeps_order};
use crate::store::{
    StoreView, Tables, apply, changed_event, events_wf, groups_wf, is_event_slot, is_first_event,
    is_first_group, is_group_slot, members_wf, new_event, new_group, owns,
};
use vstd::prelude::*;

verus! {

/// There is a place for an event of any date.
pub proof fn lemma_event_slot_exists(events: Seq<EventView>, date: Timestamp)
    ensures
        exists|at: int| is_event_slot(events, date, at),
    decreases events.len(),
{
    if events.len() == 0 {
        assert(is_event_slot(events, date, 0));
    } else {
        let shorter = events.drop_last();
        lemma_event_slot_exists(shorter, date);
        let at = choose|at: int| is_event_slot(shorter, date, at);
        assert forall|k: int| 0 <= k < at implies (#[trigger] events[k]).date_time.after(date) by {
            assert(shorter[k] == events[k]);
        }
        if at < shorter.len() {
            assert(is_event_slot(events, date, at));
        } else if events.last().date_time.after(date) {
            assert(is_event_slot(events, date, events.len() as int));
        }
    }
}

/// There is a place for a group of any creation time.
pub proof fn lemma_group_slot_exists(groups: Seq<GroupView>, stamp: Option<Timestamp>)
    ensures
        exists|at: int| is_group_slot(groups, stamp, at),
    decreases groups.len(),
{
    if groups.len() == 0 {
        assert(is_group_slot(groups, stamp, 0));
    } else {
        let shorter = groups.drop_last();
        lemma_group_slot_exists(shorter, stamp);
        let at = choose|at: int| is_group_slot(shorter, stamp, at);
        assert forall|k: int| 0 <= k < at implies stamp_after(
            (#[trigger] groups[k]).created_at,
            stamp,
        ) by {
            assert(shorter[k] == groups[k]);
        }
        if at < shorter.len() {
            assert(is_group_slot(groups, stamp, at));
        } else if stamp_after(groups.last().created_at, stamp) {
            assert(is_group_slot(groups, stamp, groups.len() as int));
        }
    }
}

/// Filtering events keeps them well-formed.
pub proof fn lemma_events_filter(events: Seq<EventView>, keep: spec_fn(EventView) -> bool)
    requires
        events_wf(events),
    ensures
        events_wf(events.filter(keep)),
{
    lemma_filter_keeps_order(
        events,
        keep,
        |a: EventView, b: EventView| a.id != b.id && !b.date_time.after(a.date_time),
    );
    lemma_filter_items(events, keep);
}

/// Filtering groups keeps them well-formed.
pub proof fn lemma_groups_filter(groups: Seq<GroupView>, next: i64, keep: spec_fn(GroupView) -> bool)
    requires
        groups_wf(groups, next),
    ensures
        groups_wf(groups.filter(keep), next),
{
    lemma_filter_keeps_order(
        groups,
        keep,
        |a: GroupView, b: GroupView| a.id != b.id && !stamp_after(b.created_at, a.created_at),
    );
    lemma_filter_items(groups, keep);
}

/// Filtering members keeps them well-formed.
pub proof fn lemma_members_filter(
    members: Seq<MemberView>,
    next: i64,
    keep: spec_fn(MemberView) -> bool,
)
    requires
        members_wf(members, next),
    ensures
        members_wf(members.filter(keep), next),
{
    lemma_filter_keeps_order(members, keep, |a: MemberView, b: MemberView| a.id != b.id);
    lemma_filter_items(members, keep);
}

/// Whatever the statement, a well-formed store stays well-formed.
pub proof fn lemma_apply_keeps_wf(store: StoreView, statement: StatementView, now: Timestamp)
    requires
        store.wf(),
    ensures
        apply(store, statement, now).0.wf(),
{
    let t = store.live;
    match statement {
        StatementView::InsertEvent { id, fields } => {
            if !t.has_event(id) {
                let row = new_event(id, fields, now);
                lemma_event_slot_exists(t.events, row.date_time);
            }
        },
        StatementView::UpdateEvent { id, fields } => {
            if t.has_event(id) {
                lemma_event_place(t, id);
                let place = t.event_place(id);
                let old = t.events[place];
                let row = changed_event(old, fields);
                let rest = t.events.remove(place);
                lemma_event_slot_exists(rest, row.date_time);
            }
        },
        StatementView::DeleteEvent { id } => {
            lemma_events_filter(t.events, |e: EventView| e.id != id);
        },
        StatementView::InsertGroup { event_id, fields } => {
            if t.next_group_id != i64::MAX {
                let row = new_group(t.next_group_id, event_id, fields, now);
                lemma_group_slot_exists(t.groups, row.created_at);
            }
        },
        StatementView::UpdateGroup { id, fields } => {
            if t.has_group(id) {
                lemma_group_place(t, id);
            }
        },
        StatementView::DeleteGroup { id } => {
            lemma_groups_filter(t.groups, t.next_group_id, |g: GroupView| g.id != id);
        },
        StatementView::DeleteGroupsOfEvent { event_id } => {
            lemma_groups_filter(t.groups, t.next_group_id, |g: GroupView| g.event_id != event_id);
        },
        StatementView::InsertMember { group_id, member } => {
        },
        StatementView::DeleteMember { id } => {
            lemma_members_filter(t.members, t.next_member_id, |m: MemberView| m.id != id);
        },
        StatementView::DeleteMembersOfGroup { group_id } => {
            lemma_members_filter(
                t.members,
                t.next_member_id,
                |m: MemberView| m.group_id != group_id,
            );
        },
        StatementView::DeleteMembersOfEvent { event_id } => {
            lemma_members_filter(
                t.members,
                t.next_member_id,
                |m: MemberView| !owns(t.groups, event_id, m.group_id),
            );
        },
        _ => {},
    }
}

/// Among events that hold the id `id`, one is the first to hold it.
pub proof fn lemma_first_event_exists(events: Seq<EventView>, id: Seq<char>, at: int)
    requires
        0 <= at < events.len(),
        events[at].id == id,
    ensures
        exists|first: int| is_first_event(events, id, first),
    decreases at,
{
    if exists|k: int| 0 <= k < at && (#[trigger] events[k]).id == id {
        let k = choose|k: int| 0 <= k < at && (#[trigger] events[k]).id == id;
        lemma_first_event_exists(events, id, k);
    } else {
        assert(is_first_event(events, id, at));
    }
}

/// Among groups that hold the id `id`, one is the first to hold it.
pub proof fn lemma_first_group_exists(groups: Seq<GroupView>, id: i64, at: int)
    requires
        0 <= at < groups.len(),
        groups[at].id == id,
    ensures
        exists|first: int| is_first_group(groups, id, first),
    decreases at,
{
    if exists|k: int| 0 <= k < at && (#[trigger] groups[k]).id == id {
        let k = choose|k: int| 0 <= k < at && (#[trigger] groups[k]).id == id;
        lemma_first_group_exists(groups, id, k);
    } else {
        assert(is_first_group(groups, id, at));
    }
}

/// Where an event is said to stand, it stands, and it is the first with
/// its id.
pub proof fn lemma_event_place(t: Tables, id: Seq<char>)
    requires
        t.has_event(id),
    ensures
        is_first_event(t.events, id, t.event_place(id)),
{
    let i = choose|i: int| 0 <= i < t.events.len() && (#[trigger] t.events[i]).id == id;
    lemma_first_event_exists(t.events, id, i);
}

/// Where a group is said to stand, it stands, and it is the first with
/// its id.
pub proof fn lemma_group_place(t: Tables, id: i64)
    requires
        t.has_group(id),
    ensures
        is_first_group(t.groups, id, t.group_place(id)),
{
    let i = choose|i: int| 0 <= i < t.groups.len() && (#[trigger] t.groups[i]).id == id;
    lemma_first_group_exists(t.groups, id, i);
}

} // verus!
