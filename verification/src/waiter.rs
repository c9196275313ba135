//! The correlation table: a registry of in-flight call ids, each bound to a
//! one-shot slot that the connection's reader fills with the response frame.
//!
//! The table is the sequential core of the waiter mechanism, and what this
//! crate proves about correlation. A transport may run an equivalent
//! registry of its own with the blocking wait and the synchronization the
//! proofs here do not cover; this table then stands beside it as the
//! library's verified statement of the rule it must follow.

use std::collections::HashMap;
use vstd::prelude::*;

use crate::frame::Frame;

verus! {

broadcast use vstd::std_specs::hash::group_hash_axioms;

/// Registry of in-flight calls. Each registered id owns one slot: empty
/// until the response frame with that id is deposited, consumed when the
/// caller takes it. Ids are unique among currently pending calls.
pub struct WaiterTable {
    next_id: u64,
    slots: HashMap<u64, Option<Frame>>,
}

impl WaiterTable {
    /// The pending calls: each registered id, with its slot.
    pub closed spec fn pending(&self) -> Map<u64, Option<Frame>> {
        self.slots@
    }

    /// The id the next registration will get.
    pub closed spec fn next_allocation(&self) -> u64 {
        self.next_id
    }

    /// Every pending id was allocated, and a filled slot holds only the
    /// frame that carries that very id.
    pub closed spec fn wf(&self) -> bool {
        forall|k: u64| #[trigger]
            self.slots@.contains_key(k) ==> k < self.next_id && (self.slots@[k] matches Some(f)
                ==> f.id == k)
    }

    /// An empty table.
    pub fn new() -> (t: WaiterTable)
        ensures
            t.wf(),
            t.pending() == Map::<u64, Option<Frame>>::empty(),
            t.next_allocation() == 0,
    {
        WaiterTable { next_id: 0, slots: HashMap::new() }
    }

    /// Whether another id can still be allocated.
    pub fn can_register(&self) -> (b: bool)
        ensures
            b == (self.next_allocation() < u64::MAX),
    {
        self.next_id < u64::MAX
    }

    /// Register a waiter: allocate an id no pending call uses and bind an
    /// empty slot to it.
    pub fn register(&mut self) -> (id: u64)
        requires
            old(self).wf(),
            old(self).next_allocation() < u64::MAX,
        ensures
            final(self).wf(),
            id == old(self).next_allocation(),
            !old(self).pending().contains_key(id),
            final(self).pending() == old(self).pending().insert(id, None::<Frame>),
            final(self).next_allocation() == old(self).next_allocation() + 1,
    {
        let id = self.next_id;
        self.next_id = self.next_id + 1;
        self.slots.insert(id, None);
        id
    }

    /// Deliver a response frame to the waiter registered under the frame's
    /// id. If no such waiter is pending, or its slot is already filled, the
    /// frame is dropped silently and nothing changes; this is also how a
    /// polling sentinel and a response that arrives after a timeout vanish.
    pub fn deposit(&mut self, frame: Frame) -> (delivered: bool)
        requires
            old(self).wf(),
        ensures
            final(self).wf(),
            delivered == (old(self).pending().contains_key(frame.id)
                && old(self).pending()[frame.id] is None),
            delivered ==> final(self).pending() == old(self).pending().insert(
                frame.id,
                Some(frame),
            ),
            !delivered ==> final(self).pending() == old(self).pending(),
            final(self).next_allocation() == old(self).next_allocation(),
    {
        let id = frame.id;
        let waiting = match self.slots.get(&id) {
            Some(slot) => slot.is_none(),
            None => false,
        };
        if waiting {
            self.slots.insert(id, Some(frame));
            true
        } else {
            false
        }
    }

    /// Take the response for `id` if one has been delivered, consuming the
    /// registration. While this returns nothing the caller keeps waiting.
    pub fn take(&mut self, id: u64) -> (r: Option<Frame>)
        requires
            old(self).wf(),
        ensures
            final(self).wf(),
            final(self).next_allocation() == old(self).next_allocation(),
            match r {
                Some(f) => old(self).pending().contains_key(id) && old(self).pending()[id]
                    == Some(f) && f.id == id && final(self).pending() == old(
                    self,
                ).pending().remove(id),
                None => (!old(self).pending().contains_key(id) || old(self).pending()[id] is None)
                    && final(self).pending() == old(self).pending(),
            },
    {
        let filled = match self.slots.get(&id) {
            Some(slot) => slot.is_some(),
            None => false,
        };
        if filled {
            match self.slots.remove(&id) {
                Some(Some(f)) => Some(f),
                _ => None,
            }
        } else {
            None
        }
    }

    /// Abandon the registration for `id` because the caller gave up waiting:
    /// the slot is gone, so a response that arrives later finds no waiter
    /// and is dropped.
    pub fn cancel(&mut self, id: u64)
        requires
            old(self).wf(),
        ensures
            final(self).wf(),
            final(self).next_allocation() == old(self).next_allocation(),
            final(self).pending() == old(self).pending().remove(id),
    {
        self.slots.remove(&id);
        proof {
            assert(final(self).pending() =~= old(self).pending().remove(id));
        }
    }
}

/// Correlation: a pending slot only ever holds the response frame that
/// carries that very call's id, so concurrent in-flight calls cannot have
/// their responses swapped.
pub proof fn lemma_correlation(t: &WaiterTable, id: u64, f: Frame)
    requires
        t.wf(),
        t.pending().contains_key(id),
        t.pending()[id] == Some(f),
    ensures
        f.id == id,
{
}

} // verus!
