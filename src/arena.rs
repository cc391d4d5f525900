//! Slots addressed by stable handles. A handle names a slot and the
//! generation it was issued for; once its entry is taken the handle is
//! retired, and no later operation brings it back.
use vstd::prelude::*;

verus! {

/// An identifier handed across the boundary in place of an address.
#[derive(Clone, Copy, Debug, PartialEq, Eq, Structural)]
pub struct Handle {
    pub index: usize,
    pub generation: u64,
}

struct Slot<T> {
    generation: u64,
    entry: Option<T>,
}

/// A table of entries of type `T`, each reached through a [`Handle`].
pub struct Arena<T> {
    slots: Vec<Slot<T>>,
}

impl<T> Arena<T> {
    /// The number of slots ever made; it never shrinks.
    pub closed spec fn slot_count(&self) -> nat {
        self.slots@.len()
    }

    /// The generation of slot `i`.
    pub closed spec fn generation_at(&self, i: int) -> u64 {
        self.slots@[i].generation
    }

    /// The entry of slot `i`, if it holds one.
    pub closed spec fn entry_at(&self, i: int) -> Option<T> {
        self.slots@[i].entry
    }

    /// The entry that `h` reaches, if it is live.
    pub open spec fn get(&self, h: Handle) -> Option<T> {
        if h.index < self.slot_count() && self.generation_at(h.index as int) == h.generation {
            self.entry_at(h.index as int)
        } else {
            None
        }
    }

    /// `h` was issued by this table and its entry has since been taken.
    pub open spec fn retired(&self, h: Handle) -> bool {
        &&& h.index < self.slot_count()
        &&& (self.generation_at(h.index as int) > h.generation || (self.generation_at(
            h.index as int,
        ) == h.generation && self.entry_at(h.index as int) is None))
    }

    /// Every handle retired in `self` is still retired in `later`.
    pub open spec fn keeps_retired(&self, later: &Self) -> bool {
        forall|h: Handle| #[trigger] self.retired(h) ==> later.retired(h)
    }

    /// `later` reaches the same entries as `self` through every handle but `h`.
    pub open spec fn same_except(&self, later: &Self, h: Handle) -> bool {
        forall|g: Handle| g != h ==> #[trigger] later.get(g) == self.get(g)
    }

    /// A retired handle reaches nothing, and it stays retired, reaching
    /// nothing, in every later table that keeps retired handles retired, as
    /// every operation here does.
    pub proof fn lemma_retired_stays_unreachable(&self, later: &Self, h: Handle)
        requires
            self.retired(h),
            self.keeps_retired(later),
        ensures
            self.get(h) is None,
            later.retired(h),
            later.get(h) is None,
    {
    }

    /// An empty table.
    pub fn new() -> (a: Arena<T>)
        ensures
            forall|h: Handle| #[trigger] a.get(h) is None && !a.retired(h),
    {
        Arena { slots: Vec::new() }
    }

    /// Stores `v` and returns a handle, not live before, that reaches it.
    /// A free slot is reused under its next generation; otherwise a new
    /// slot is made.
    pub fn insert(&mut self, v: T) -> (h: Handle)
        ensures
            old(self).get(h) is None,
            !old(self).retired(h),
            final(self).get(h) == Some(v),
            old(self).same_except(&*final(self), h),
            old(self).keeps_retired(&*final(self)),
    {
        let n = self.slots.len();
        let mut i: usize = 0;
        while i < n
            invariant
                n == self.slots@.len(),
                self == old(self),
                i <= n,
                forall|j: int|
                    0 <= j < i ==> #[trigger] self.slots@[j].entry is Some
                        || self.slots@[j].generation == u64::MAX,
            decreases n - i,
        {
            if self.slots[i].entry.is_none() && self.slots[i].generation < u64::MAX {
                let generation = self.slots[i].generation + 1;
                let mut slot = Slot { generation, entry: Some(v) };
                self.slots.set_and_swap(i, &mut slot);
                let h = Handle { index: i, generation };
                assert forall|g: Handle| g != h implies #[trigger] self.get(g) == old(self).get(
                    g,
                ) by {
                    if g.index == i {
                        assert(old(self).slots@[i as int].entry is None);
                    }
                }
                return h;
            }
            i = i + 1;
        }
        self.slots.push(Slot { generation: 0, entry: Some(v) });
        let h = Handle { index: n, generation: 0 };
        assert forall|g: Handle| g != h implies #[trigger] self.get(g) == old(self).get(g) by {
            if g.index < n {
                assert(self.slots@[g.index as int] == old(self).slots@[g.index as int]);
            }
        }
        assert forall|g: Handle| #[trigger] old(self).retired(g) implies self.retired(g) by {
            assert(self.slots@[g.index as int] == old(self).slots@[g.index as int]);
        }
        h
    }

    /// The entry that `h` reaches, if it is live.
    pub fn get_ref(&self, h: Handle) -> (r: Option<&T>)
        ensures
            r matches Some(v) ==> self.get(h) == Some(*v),
            r is None <==> self.get(h) is None,
    {
        if h.index < self.slots.len() && self.slots[h.index].generation == h.generation {
            match &self.slots[h.index].entry {
                Some(v) => Some(v),
                None => None,
            }
        } else {
            None
        }
    }

    /// Takes the entry that `h` reaches, if it is live. Afterwards `h`
    /// reaches nothing, and is retired if it was live.
    pub fn take(&mut self, h: Handle) -> (r: Option<T>)
        ensures
            r == old(self).get(h),
            final(self).get(h) is None,
            r is Some ==> final(self).retired(h),
            old(self).same_except(&*final(self), h),
            old(self).keeps_retired(&*final(self)),
    {
        if h.index < self.slots.len() && self.slots[h.index].generation == h.generation {
            let mut slot = Slot { generation: h.generation, entry: None };
            self.slots.set_and_swap(h.index, &mut slot);
            assert forall|g: Handle| g != h implies #[trigger] self.get(g) == old(self).get(g) by {
                if g.index == h.index {
                    assert(g.generation != h.generation);
                }
            }
            slot.entry
        } else {
            None
        }
    }
}

} // verus!
