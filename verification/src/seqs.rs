//! Small facts about sequences and the deep views of vectors.

use vstd::prelude::*;

verus! {

/// Pushing one item onto a vector pushes that item's view onto the
/// vector's deep view.
pub proof fn lemma_deep_view_push<T: DeepView>(before: Vec<T>, after: Vec<T>, item: T)
    requires
        after@ == before@.push(item),
    ensures
        after.deep_view() == before.deep_view().push(item.deep_view()),
{
}

/// Inserting one item into a vector inserts that item's view into the
/// vector's deep view.
pub proof fn lemma_deep_view_insert<T: DeepView>(before: Vec<T>, after: Vec<T>, at: int, item: T)
    requires
        0 <= at <= before.len(),
        after@ == before@.insert(at, item),
    ensures
        after.deep_view() == before.deep_view().insert(at, item.deep_view()),
{
}

/// Removing one item from a vector removes that item's view from the
/// vector's deep view.
pub proof fn lemma_deep_view_remove<T: DeepView>(before: Vec<T>, after: Vec<T>, at: int)
    requires
        0 <= at < before.len(),
        after@ == before@.remove(at),
    ensures
        after.deep_view() == before.deep_view().remove(at),
{
}

/// A prefix of a sequence, extended by the item that follows it, is the
/// next longer prefix.
pub proof fn lemma_take_next<T>(s: Seq<T>, i: int)
    requires
        0 <= i < s.len(),
    ensures
        s.take(i + 1) == s.take(i).push(s[i]),
        s.take(i + 1).drop_last() == s.take(i),
        s.take(i + 1).last() == s[i],
{
}

/// The prefix that holds the whole sequence is the sequence.
pub proof fn lemma_take_all<T>(s: Seq<T>)
    ensures
        s.take(s.len() as int) == s,
{
}

/// Filtering a prefix that is one item longer either keeps that item at
/// the end or changes nothing.
pub proof fn lemma_filter_next<T>(s: Seq<T>, keep: spec_fn(T) -> bool, i: int)
    requires
        0 <= i < s.len(),
    ensures
        s.take(i + 1).filter(keep) == if keep(s[i]) {
            s.take(i).filter(keep).push(s[i])
        } else {
            s.take(i).filter(keep)
        },
{
    lemma_take_next(s, i);
    reveal(Seq::filter);
}

/// A filter that every item passes changes nothing.
pub proof fn lemma_filter_all<T>(s: Seq<T>, keep: spec_fn(T) -> bool)
    requires
        forall|i: int| 0 <= i < s.len() ==> keep(#[trigger] s[i]),
    ensures
        s.filter(keep) == s,
    decreases s.len(),
{
    reveal(Seq::filter);
    if s.len() > 0 {
        let shorter = s.drop_last();
        lemma_filter_all(shorter, keep);
    }
}

/// A filter that no item passes leaves nothing.
pub proof fn lemma_filter_nothing<T>(s: Seq<T>, keep: spec_fn(T) -> bool)
    requires
        forall|i: int| 0 <= i < s.len() ==> !keep(#[trigger] s[i]),
    ensures
        s.filter(keep) == Seq::<T>::empty(),
    decreases s.len(),
{
    reveal(Seq::filter);
    if s.len() > 0 {
        let shorter = s.drop_last();
        lemma_filter_nothing(shorter, keep);
    }
}

/// Where everything that passes a second filter also passes the first,
/// filtering by the first and then by the second is filtering by the
/// second alone.
pub proof fn lemma_filter_twice<T>(s: Seq<T>, first: spec_fn(T) -> bool, second: spec_fn(T) -> bool)
    requires
        forall|i: int| 0 <= i < s.len() && second(#[trigger] s[i]) ==> first(s[i]),
    ensures
        s.filter(first).filter(second) == s.filter(second),
    decreases s.len(),
{
    reveal(Seq::filter);
    if s.len() > 0 {
        let shorter = s.drop_last();
        lemma_filter_twice(shorter, first, second);
        if first(s.last()) {
            let f = shorter.filter(first);
            assert(f.push(s.last()).drop_last() =~= f);
        }
    }
}

/// What filtering keeps: only items of the sequence that pass, and every
/// item that passes.
pub proof fn lemma_filter_items<T>(s: Seq<T>, keep: spec_fn(T) -> bool)
    ensures
        s.filter(keep).len() <= s.len(),
        forall|i: int|
            0 <= i < s.filter(keep).len() ==> keep(#[trigger] s.filter(keep)[i]) && exists|a: int|
                0 <= a < s.len() && #[trigger] s[a] == s.filter(keep)[i],
        forall|a: int|
            0 <= a < s.len() && keep(#[trigger] s[a]) ==> exists|i: int|
                0 <= i < s.filter(keep).len() && #[trigger] s.filter(keep)[i] == s[a],
    decreases s.len(),
{
    reveal(Seq::filter);
    let f = s.filter(keep);
    if s.len() > 0 {
        let shorter = s.drop_last();
        let g = shorter.filter(keep);
        lemma_filter_items(shorter, keep);
        assert forall|i: int| 0 <= i < f.len() implies keep(#[trigger] f[i]) && exists|a: int|
            0 <= a < s.len() && #[trigger] s[a] == f[i] by {
            if i < g.len() {
                let a = choose|a: int| 0 <= a < shorter.len() && #[trigger] shorter[a] == g[i];
            }
        }
        assert forall|a: int| 0 <= a < s.len() && keep(#[trigger] s[a]) implies exists|i: int|
            0 <= i < f.len() && #[trigger] f[i] == s[a] by {
            if a < shorter.len() {
                let i = choose|i: int| 0 <= i < g.len() && #[trigger] g[i] == shorter[a];
                assert(f[i] == s[a]);
            } else {
                assert(f[f.len() - 1] == s[a]);
            }
        }
    }
}

/// Filtering keeps the order of the items: what holds between every item
/// and every later one still holds after filtering.
pub proof fn lemma_filter_keeps_order<T>(
    s: Seq<T>,
    keep: spec_fn(T) -> bool,
    holds: spec_fn(T, T) -> bool,
)
    requires
        forall|i: int, j: int| 0 <= i < j < s.len() ==> holds(#[trigger] s[i], #[trigger] s[j]),
    ensures
        forall|i: int, j: int|
            0 <= i < j < s.filter(keep).len() ==> holds(
                #[trigger] s.filter(keep)[i],
                #[trigger] s.filter(keep)[j],
            ),
    decreases s.len(),
{
    reveal(Seq::filter);
    if s.len() > 0 {
        let shorter = s.drop_last();
        lemma_filter_keeps_order(shorter, keep, holds);
        lemma_filter_items(shorter, keep);
    }
}

} // verus!
