use vstd::prelude::*;

verus! {

/// Index `i` is the lowest free slot of `used`.
pub open spec fn is_first_free(used: Seq<bool>, i: int) -> bool {
    &&& 0 <= i < used.len()
    &&& !used[i]
    &&& forall|j: int| 0 <= j < i ==> #[trigger] used[j]
}

/// Every slot of `used` is taken.
pub open spec fn all_taken(used: Seq<bool>) -> bool {
    forall|j: int| 0 <= j < used.len() ==> #[trigger] used[j]
}

/// A bounded pool of device slots, numbered from 1. A slot is handed to at most one
/// live session at a time; acquiring takes the lowest free slot, releasing frees it.
///
/// The pool itself is not synchronised: sessions that run concurrently share it
/// behind a lock.
pub struct SlotPool {
    used: Vec<bool>,
}

impl SlotPool {
    /// Entry `i` tells whether slot `i + 1` is taken.
    pub closed spec fn view(&self) -> Seq<bool> {
        self.used@
    }

    /// A pool of `capacity` free slots, numbered `1 ..= capacity`.
    pub fn new(capacity: u8) -> (r: SlotPool)
        ensures
            r.view().len() == capacity as int,
            forall|i: int| 0 <= i < capacity ==> !(#[trigger] r.view()[i]),
    {
        let mut used: Vec<bool> = Vec::new();
        let mut i: u8 = 0;
        while i < capacity
            invariant
                i <= capacity,
                used@.len() == i as int,
                forall|j: int| 0 <= j < i ==> !(#[trigger] used@[j]),
            decreases capacity - i,
        {
            used.push(false);
            i = i + 1;
        }
        SlotPool { used }
    }

    /// Whether slot `slot` is held by a session.
    pub fn is_taken(&self, slot: u8) -> (r: bool)
        ensures
            r == (1 <= slot <= self.view().len() && self.view()[slot - 1]),
    {
        if slot >= 1 && (slot as usize) <= self.used.len() {
            self.used[slot as usize - 1]
        } else {
            false
        }
    }

    /// Takes the lowest free slot; `None`, with the pool unchanged, when all are taken.
    pub fn acquire(&mut self) -> (r: Option<u8>)
        requires
            old(self).view().len() <= 255,
        ensures
            match r {
                Some(slot) => {
                    &&& is_first_free(old(self).view(), slot - 1)
                    &&& final(self).view() == old(self).view().update(slot - 1, true)
                },
                None => all_taken(old(self).view()) && final(self).view() == old(self).view(),
            },
    {
        let mut i: usize = 0;
        while i < self.used.len()
            invariant
                self.used@ == old(self).used@,
                self.used@.len() <= 255,
                i <= self.used@.len(),
                forall|j: int| 0 <= j < i ==> #[trigger] self.used@[j],
            decreases self.used@.len() - i,
        {
            if !self.used[i] {
                self.used.set(i, true);
                return Some((i + 1) as u8);
            }
            i = i + 1;
        }
        None
    }

    /// Frees `slot`; other slots keep their state. A slot outside the pool changes
    /// nothing.
    pub fn release(&mut self, slot: u8)
        ensures
            if 1 <= slot <= old(self).view().len() {
                final(self).view() == old(self).view().update(slot - 1, false)
            } else {
                final(self).view() == old(self).view()
            },
    {
        if slot >= 1 && (slot as usize) <= self.used.len() {
            self.used.set(slot as usize - 1, false);
        }
    }
}

/// Slots acquired one after another, with no release between them, are pairwise
/// distinct: no slot goes to two live sessions.
pub proof fn lemma_acquired_slots_distinct(states: Seq<Seq<bool>>, slots: Seq<int>)
    requires
        states.len() == slots.len() + 1,
        forall|k: int|
            0 <= k < slots.len() ==> is_first_free(states[k], #[trigger] slots[k]) && states[k + 1]
                == states[k].update(slots[k], true),
    ensures
        forall|a: int, b: int| 0 <= a < b < slots.len() ==> slots[a] != slots[b],
{
    assert forall|a: int, b: int| 0 <= a < b < slots.len() implies slots[a] != slots[b] by {
        lemma_acquired_stays_taken(states, slots, a, b);
        assert(is_first_free(states[b], slots[b]));
    }
}

proof fn lemma_acquired_stays_taken(states: Seq<Seq<bool>>, slots: Seq<int>, a: int, k: int)
    requires
        states.len() == slots.len() + 1,
        forall|k: int|
            0 <= k < slots.len() ==> is_first_free(states[k], #[trigger] slots[k]) && states[k + 1]
                == states[k].update(slots[k], true),
        0 <= a < k <= slots.len(),
    ensures
        states[k].len() == states[a].len(),
        states[k][slots[a]],
    decreases k - a,
{
    assert(is_first_free(states[a], slots[a]));
    if k > a + 1 {
        lemma_acquired_stays_taken(states, slots, a, k - 1);
        assert(is_first_free(states[k - 1], slots[k - 1]));
    }
}

/// A slot released while every lower slot is taken is the next one handed out: freed
/// slots are reused before higher ones.
pub proof fn lemma_released_slot_reused(used: Seq<bool>, slot: int)
    requires
        1 <= slot <= used.len(),
        forall|j: int| 0 <= j < slot - 1 ==> #[trigger] used[j],
    ensures
        is_first_free(used.update(slot - 1, false), slot - 1),
{
}

} // verus!
