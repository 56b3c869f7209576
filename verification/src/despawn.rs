//! Removing the bars whose subject is gone.
//!
//! A bar without its subject is not an error: the owner is gone, and the bar
//! goes with it. The pass here decides which bars go. Taking them, and what
//! hangs on them, out of the entity store is the store's own work.

use crate::components::StatBarSubject;
use std::collections::HashSet;
use vstd::prelude::*;

verus! {

broadcast use vstd::std_specs::hash::group_hash_axioms;

/// A bar and the subject it belongs to, each by its identifier in the entity
/// store.
#[derive(Clone, Copy, Debug, PartialEq, Eq, Structural)]
pub struct BarLink {
    pub bar: u64,
    pub subject: StatBarSubject,
}

/// The bars of `bars` whose subject is among `subjects`, in their order.
pub open spec fn spec_survivors(bars: Seq<BarLink>, subjects: Set<u64>) -> Seq<BarLink> {
    bars.filter(|link: BarLink| subjects.contains(link.subject.0))
}

/// The identifiers of the bars of `bars` whose subject is not among
/// `subjects`, in their order.
pub open spec fn spec_despawned(bars: Seq<BarLink>, subjects: Set<u64>) -> Seq<u64> {
    bars.filter_map(
        |link: BarLink|
            if subjects.contains(link.subject.0) {
                None
            } else {
                Some(link.bar)
            },
    )
}

/// Leaves in `bars` those whose subject is among the entities `subjects` that
/// the store holds, and returns the identifiers of the others, which are to
/// be destroyed.
pub fn despawn_if_subject_not_found(bars: &mut Vec<BarLink>, subjects: &HashSet<u64>) -> (despawned:
    Vec<u64>)
    ensures
        final(bars)@ == spec_survivors(old(bars)@, subjects@),
        despawned@ == spec_despawned(old(bars)@, subjects@),
{
    let mut kept: Vec<BarLink> = Vec::new();
    let mut despawned: Vec<u64> = Vec::new();
    let mut i: usize = 0;
    while i < bars.len()
        invariant
            i <= bars.len(),
            bars@ == old(bars)@,
            kept@ == spec_survivors(bars@.take(i as int), subjects@),
            despawned@ == spec_despawned(bars@.take(i as int), subjects@),
        decreases bars.len() - i,
    {
        let link = bars[i];
        proof {
            assert(bars@.take(i + 1) == bars@.take(i as int).push(link));
            bars@.take(i as int).lemma_filter_push(
                link,
                |link: BarLink| subjects@.contains(link.subject.0),
            );
            bars@.lemma_filter_map_take_succ(
                |link: BarLink|
                    if subjects@.contains(link.subject.0) {
                        None
                    } else {
                        Some(link.bar)
                    },
                i as int,
            );
        }
        if subjects.contains(&link.subject.0) {
            kept.push(link);
        } else {
            despawned.push(link.bar);
        }
        i = i + 1;
    }
    assert(bars@.take(i as int) == bars@);
    *bars = kept;
    despawned
}

/// A bar whose subject the store no longer holds is not among the bars that
/// are left, and its identifier is among those to destroy; and every bar that
/// is left has its subject in the store.
pub proof fn lemma_no_bar_outlives_its_subject(bars: Seq<BarLink>, subjects: Set<u64>)
    ensures
        forall|i: int|
            0 <= i < bars.len() && !subjects.contains(bars[i].subject.0) ==> {
                &&& !spec_survivors(bars, subjects).contains(#[trigger] bars[i])
                &&& spec_despawned(bars, subjects).contains(bars[i].bar)
            },
        forall|j: int|
            0 <= j < spec_survivors(bars, subjects).len() ==> subjects.contains(
                (#[trigger] spec_survivors(bars, subjects)[j]).subject.0,
            ),
{
    let keep = |link: BarLink| subjects.contains(link.subject.0);
    let doomed = |link: BarLink|
        if subjects.contains(link.subject.0) {
            None
        } else {
            Some(link.bar)
        };
    let left = spec_survivors(bars, subjects);
    assert forall|j: int| 0 <= j < left.len() implies subjects.contains(
        (#[trigger] left[j]).subject.0,
    ) by {
        bars.lemma_filter_pred(keep, j);
    }
    assert forall|i: int|
        0 <= i < bars.len() && !subjects.contains(bars[i].subject.0) implies {
        &&& !left.contains(#[trigger] bars[i])
        &&& spec_despawned(bars, subjects).contains(bars[i].bar)
    } by {
        if left.contains(bars[i]) {
            let j = choose|j: int| 0 <= j < left.len() && left[j] == bars[i];
            bars.lemma_filter_pred(keep, j);
        }
        lemma_filter_map_keeps(bars, doomed, i);
    }
}

/// What `f` makes of an item of `items` is among what `filter_map` makes of
/// `items`.
proof fn lemma_filter_map_keeps<A, B>(items: Seq<A>, f: spec_fn(A) -> Option<B>, i: int)
    requires
        0 <= i < items.len(),
        f(items[i]) is Some,
    ensures
        items.filter_map(f).contains(f(items[i])->0),
    decreases items.len(),
{
    let rest = items.drop_last();
    let made = items.filter_map(f);
    if i == items.len() - 1 {
        assert(made[made.len() - 1] == f(items[i])->0);
    } else {
        lemma_filter_map_keeps(rest, f, i);
        let before = rest.filter_map(f);
        let j = choose|j: int| 0 <= j < before.len() && before[j] == f(items[i])->0;
        assert(made[j] == f(items[i])->0);
    }
}

} // verus!
