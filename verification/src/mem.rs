//! Model of the kernel byte allocator the driver draws request blocks from.
//!
//! The allocator hands out fresh, never-reused address ranges from a rising
//! cursor.  No operation here frees a block: once a request block is chained
//! and submitted, ownership passes to the transport, and its release is
//! signaled only through the Used Ring — `reap_completions` hands the
//! addresses back to whoever runs the real allocator.

use vstd::prelude::*;

verus! {

/// The allocator's state: the next address it will hand out.
pub struct Kmem {
    pub next: u64,
}

impl Kmem {
    /// An allocator whose arena starts at `base`.
    pub fn new(base: u64) -> (m: Kmem)
        ensures
            m.next == base,
    {
        Kmem { next: base }
    }

    /// Allocates `size` bytes: returns the start of a fresh range disjoint
    /// from every range handed out before.
    pub fn kmalloc(&mut self, size: u32) -> (addr: u64)
        requires
            old(self).next + size <= u64::MAX,
        ensures
            addr == old(self).next,
            final(self).next == old(self).next + size,
    {
        let addr = self.next;
        self.next = self.next + size as u64;
        addr
    }
}

} // verus!
