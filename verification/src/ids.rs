use vstd::prelude::*;

verus! {

/// Hands out entity ids in increasing order, starting from one.
pub struct IdAllocator {
    next: u32,
}

impl IdAllocator {
    /// The id the next allocation hands out.
    pub closed spec fn next_id(self) -> u32 {
        self.next
    }
}

impl Default for IdAllocator {
    fn default() -> (a: IdAllocator)
        ensures
            a.next_id() == 1,
    {
        IdAllocator { next: 1 }
    }
}

impl IdAllocator {
    /// Hands out the next id.
    pub fn allocate(&mut self) -> (id: u32)
        requires
            old(self).next_id() < u32::MAX,
        ensures
            id == old(self).next_id(),
            final(self).next_id() == id + 1,
    {
        let id = self.next;
        self.next = self.next + 1;
        id
    }

    /// Makes sure no id below `min_next` is handed out from now on.
    pub fn bump_to_at_least(&mut self, min_next: u32)
        ensures
            final(self).next_id() == if old(self).next_id() < min_next { min_next } else { old(self).next_id() },
    {
        if self.next < min_next {
            self.next = min_next;
        }
    }
}

} // verus!
