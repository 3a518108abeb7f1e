//! The bounded memory of operation ids that lets an edit apply at most once.

use vstd::prelude::*;
use std::collections::{HashSet, VecDeque};

verus! {

/// How many operation ids the coordinator remembers for one document.
pub const RECENT_OPS_CAP: usize = 4096;

/// A set of operation ids that holds at most a fixed number of them and
/// forgets the oldest first.
pub struct RecentOps {
    set: HashSet<u128>,
    order: VecDeque<u128>,
    cap: usize,
}

/// What the ids are after `id` was offered: unchanged where `id` is among
/// them, else `id` is added at the end and the oldest ids leave until no more
/// than `cap` are left.
pub open spec fn ids_after_insert(ids: Seq<u128>, cap: usize, id: u128) -> Seq<u128> {
    if ids.contains(id) {
        ids
    } else if ids.len() + 1 > cap {
        ids.push(id).skip(ids.len() + 1 - cap)
    } else {
        ids.push(id)
    }
}

/// The two collections hold the same ids, each once, and no more than `cap`.
pub closed spec fn parts_agree(set: Set<u128>, order: Seq<u128>, cap: usize) -> bool {
    &&& order.no_duplicates()
    &&& order.len() <= cap
    &&& forall|id: u128| set.contains(id) <==> order.contains(id)
}

/// Drops the oldest ids until no more than `cap` are left.
fn evict(set: &mut HashSet<u128>, order: &mut VecDeque<u128>, cap: usize)
    requires
        old(order)@.no_duplicates(),
        forall|id: u128| old(set)@.contains(id) <==> old(order)@.contains(id),
    ensures
        parts_agree(final(set)@, final(order)@, cap),
        old(order)@.len() <= cap ==> final(order)@ == old(order)@,
        old(order)@.len() > cap ==> final(order)@ == old(order)@.skip(old(order)@.len() - cap),
{
    broadcast use vstd::std_specs::hash::group_hash_axioms;

    let ghost start = order@;
    while order.len() > cap
        invariant
            start.no_duplicates(),
            order@.len() <= start.len(),
            order@.len() == start.len() || order@.len() >= cap,
            order@ == start.skip(start.len() - order@.len()),
            forall|id: u128| set@.contains(id) <==> order@.contains(id),
        decreases order@.len(),
    {
        let ghost before = order@;
        let oldest = order.pop_front();
        match oldest {
            Some(id) => {
                set.remove(&id);
                proof {
                    assert forall|other: u128| set@.contains(other) <==> order@.contains(
                        other,
                    ) by {
                        if before.contains(other) && other != id {
                            let j = choose|j: int| 0 <= j < before.len() && before[j] == other;
                            assert(order@[j - 1] == other);
                        }
                    }
                }
            },
            None => {},
        }
    }
}

impl View for RecentOps {
    type V = Seq<u128>;

    /// The remembered ids, oldest first.
    closed spec fn view(&self) -> Seq<u128> {
        self.order@
    }
}

impl RecentOps {
    /// The ids are remembered once each, and no more of them than the
    /// capacity allows.
    pub closed spec fn wf(&self) -> bool {
        parts_agree(self.set@, self.order@, self.cap)
    }

    /// The number of ids that are remembered at most.
    pub closed spec fn capacity(&self) -> usize {
        self.cap
    }

    /// No more ids are remembered than the capacity allows, and none twice.
    pub proof fn lemma_within_capacity(&self)
        requires
            self.wf(),
        ensures
            self@.len() <= self.capacity(),
            self@.no_duplicates(),
    {
    }

    /// An empty memory for at most `cap` ids.
    pub fn new(cap: usize) -> (res: Self)
        ensures
            res.wf(),
            res@ == Seq::<u128>::empty(),
            res.capacity() == cap,
    {
        broadcast use vstd::std_specs::hash::group_hash_axioms;

        RecentOps { set: HashSet::new(), order: VecDeque::new(), cap }
    }

    /// Whether `id` is remembered.
    pub fn contains(&self, id: &u128) -> (res: bool)
        requires
            self.wf(),
        ensures
            res == self@.contains(*id),
    {
        broadcast use vstd::std_specs::hash::group_hash_axioms;

        self.set.contains(id)
    }

    /// Remembers `id` and says whether it was new. A new id may push out the
    /// oldest one.
    pub fn insert(&mut self, id: u128) -> (novel: bool)
        requires
            old(self).wf(),
        ensures
            final(self).wf(),
            novel == !old(self)@.contains(id),
            final(self)@ == ids_after_insert(old(self)@, old(self).capacity(), id),
            final(self).capacity() == old(self).capacity(),
            final(self)@.len() <= final(self).capacity(),
            final(self)@.no_duplicates(),
    {
        broadcast use vstd::std_specs::hash::group_hash_axioms;

        let cap = self.cap;
        insert_parts(&mut self.set, &mut self.order, cap, id)
    }
}

/// Adds `id` to both collections where it is new, then evicts.
fn insert_parts(
    set: &mut HashSet<u128>,
    order: &mut VecDeque<u128>,
    cap: usize,
    id: u128,
) -> (novel: bool)
    requires
        parts_agree(old(set)@, old(order)@, cap),
    ensures
        parts_agree(final(set)@, final(order)@, cap),
        novel == !old(order)@.contains(id),
        final(order)@ == ids_after_insert(old(order)@, cap, id),
{
    broadcast use vstd::std_specs::hash::group_hash_axioms;

    if set.insert(id) {
        order.push_back(id);
        proof {
            let grown = order@;
            assert forall|other: u128| set@.contains(other) <==> grown.contains(other) by {
                if other == id {
                    assert(grown[grown.len() - 1] == id);
                } else if old(order)@.contains(other) {
                    let j = choose|j: int| 0 <= j < old(order)@.len() && old(order)@[j] == other;
                    assert(grown[j] == other);
                }
            }
        }
        evict(set, order, cap);
        true
    } else {
        false
    }
}

/// An id that was offered is remembered, whatever had to leave for it, as
/// long as anything at all may be remembered.
pub proof fn lemma_offered_id_is_remembered(ids: Seq<u128>, cap: usize, id: u128)
    requires
        cap > 0,
    ensures
        ids_after_insert(ids, cap, id).contains(id),
{
    if !ids.contains(id) {
        let grown = ids.push(id);
        assert(grown[grown.len() - 1] == id);
        if ids.len() + 1 > cap {
            let kept = grown.skip(ids.len() + 1 - cap);
            assert(kept[kept.len() - 1] == id);
        }
    }
}

} // verus!
