//! Joining rows of two tables into nested answers.

use crate::model::{Group, GroupMember, GroupView, GroupWithMembers, GroupWithMembersView, MemberView};
use crate::seqs::{lemma_deep_view_push, lemma_filter_next, lemma_take_all};
use std::collections::HashMap;
use vstd::prelude::*;

verus! {

/// The members that belong to the group `group_id`, in the order in which
/// they stand in `members`.
pub open spec fn members_of(members: Seq<MemberView>, group_id: i64) -> Seq<MemberView> {
    members.filter(|m: MemberView| m.group_id == group_id)
}

/// One of the first `i` groups in the list has the id `id`.
pub open spec fn among_first(groups: Seq<GroupView>, i: int, id: i64) -> bool {
    exists|j: int| 0 <= j < i && #[trigger] groups[j].id == id
}

/// An earlier group in the list has the same id as the group at `i`.
pub open spec fn seen_before(groups: Seq<GroupView>, i: int) -> bool {
    among_first(groups, i, groups[i].id)
}

/// Each group with its members attached. A group without members gets an
/// empty list. Should one id stand in the list twice, its members go to
/// the first of the two, and the second gets an empty list.
pub open spec fn attach(groups: Seq<GroupView>, members: Seq<MemberView>) -> Seq<
    GroupWithMembersView,
> {
    Seq::new(
        groups.len(),
        |i: int|
            GroupWithMembersView {
                group: groups[i],
                members: if seen_before(groups, i) {
                    Seq::empty()
                } else {
                    members_of(members, groups[i].id)
                },
            },
    )
}

/// What a map from group ids to member lists holds for one id: the list
/// under that id, or nothing.
pub open spec fn listed(lists: Map<i64, Vec<GroupMember>>, group_id: i64) -> Seq<MemberView> {
    if lists.contains_key(group_id) {
        lists[group_id].deep_view()
    } else {
        Seq::empty()
    }
}

/// Sorts members into one list per group id, keeping their order.
fn partition(members: &Vec<GroupMember>) -> (lists: HashMap<i64, Vec<GroupMember>>)
    ensures
        forall|g: i64| #[trigger] listed(lists@, g) == members_of(members.deep_view(), g),
{
    broadcast use vstd::std_specs::hash::group_hash_axioms;

    let mut lists: HashMap<i64, Vec<GroupMember>> = HashMap::new();
    let mut i: usize = 0;
    while i < members.len()
        invariant
            i <= members.len(),
            forall|g: i64| #[trigger]
                listed(lists@, g) == members_of(members.deep_view().take(i as int), g),
        decreases members.len() - i,
    {
        let member = members[i].clone();
        let group_id = member.group_id;
        let ghost before = lists@;
        let mut list: Vec<GroupMember> = match lists.remove(&group_id) {
            Some(list) => list,
            None => Vec::new(),
        };
        list.push(member);
        lists.insert(group_id, list);
        proof {
            assert forall|g: i64| #[trigger]
                listed(lists@, g) == members_of(members.deep_view().take(i + 1), g) by {
                lemma_filter_next(
                    members.deep_view(),
                    |m: MemberView| m.group_id == g,
                    i as int,
                );
                assert(listed(before, g) == members_of(members.deep_view().take(i as int), g));
            }
        }
        i = i + 1;
    }
    proof {
        lemma_take_all(members.deep_view());
    }
    lists
}

/// Attaches to each group its members out of `members`, which may hold
/// the members of many groups in any order. Looks at every member once.
pub fn attach_members(groups: &Vec<Group>, members: &Vec<GroupMember>) -> (out: Vec<
    GroupWithMembers,
>)
    ensures
        out.deep_view() == attach(groups.deep_view(), members.deep_view()),
{
    broadcast use vstd::std_specs::hash::group_hash_axioms;

    let mut lists = partition(members);
    let mut out: Vec<GroupWithMembers> = Vec::new();
    let mut i: usize = 0;
    let ghost wanted = attach(groups.deep_view(), members.deep_view());
    while i < groups.len()
        invariant
            i <= groups.len(),
            wanted == attach(groups.deep_view(), members.deep_view()),
            out.deep_view() == wanted.take(i as int),
            forall|g: i64| #[trigger]
                listed(lists@, g) == (if among_first(groups.deep_view(), i as int, g) {
                    Seq::empty()
                } else {
                    members_of(members.deep_view(), g)
                }),
        decreases groups.len() - i,
    {
        let group = groups[i].clone();
        let ghost before = lists@;
        let list: Vec<GroupMember> = match lists.remove(&group.id) {
            Some(list) => list,
            None => Vec::new(),
        };
        assert(list.deep_view() =~= listed(before, group.id));
        let ghost shorter = out;
        let item = GroupWithMembers { group, members: list };
        out.push(item);
        proof {
            lemma_deep_view_push(shorter, out, item);
            assert forall|g: i64| #[trigger]
                listed(lists@, g) == (if among_first(groups.deep_view(), i + 1, g) {
                    Seq::empty()
                } else {
                    members_of(members.deep_view(), g)
                }) by {
                assert(listed(before, g) == (if among_first(groups.deep_view(), i as int, g) {
                    Seq::empty()
                } else {
                    members_of(members.deep_view(), g)
                }));
                if g == group.id {
                    assert(groups.deep_view()[i as int].id == g);
                }
            }
        }
        i = i + 1;
    }
    out
}

} // verus!
