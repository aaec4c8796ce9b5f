//! The shared rings of one virtqueue.
//!
//! A queue owns a fixed-size descriptor table, an Available Ring written only
//! by the driver, and a Used Ring written only by the device.  All three are
//! allocated once at device setup and never resized.

use crate::modmath::add_mod;
use vstd::prelude::*;

verus! {

/// Flag on a descriptor whose `next` field continues the chain.
pub const VIRTIO_DESC_F_NEXT: u16 = 1;

/// Flag on a descriptor the device may write into (response payloads);
/// absence marks a region the device only reads.
pub const VIRTIO_DESC_F_WRITE: u16 = 2;

/// Flag on a descriptor whose region holds an indirect descriptor table.
pub const VIRTIO_DESC_F_INDIRECT: u16 = 4;

/// One contiguous memory region visible to the device.  Its binary layout is
/// fixed at 16 bytes: `addr:u64, len:u32, flags:u16, next:u16`.
#[derive(Clone, Copy, PartialEq, Eq, Structural, Debug)]
pub struct Descriptor {
    pub addr: u64,
    pub len: u32,
    pub flags: u16,
    pub next: u16,
}

/// One memory region of a request chain, as handed to the transport by a
/// caller: where it lies, how long it is, and whether the device may write
/// into it.
#[derive(Clone, Copy, PartialEq, Eq, Structural, Debug)]
pub struct ChainRegion {
    pub addr: u64,
    pub len: u32,
    pub device_writes: bool,
}

/// Producer ring: each entry is the descriptor-chain head index of one
/// submitted request.  The driver is the sole writer of `ring` entries and
/// the sole mutator of `idx`, a free-running 16-bit counter.
pub struct AvailRing {
    pub flags: u16,
    pub idx: u16,
    pub ring: Vec<u16>,
}

/// One completion notice: the head index of the finished chain and how many
/// bytes the device wrote.
#[derive(Clone, Copy, PartialEq, Eq, Structural, Debug)]
pub struct UsedElem {
    pub id: u32,
    pub len: u32,
}

/// Consumer ring: the device is the sole writer.  `idx` counts total
/// completions ever posted, a free-running 16-bit counter.
pub struct UsedRing {
    pub flags: u16,
    pub idx: u16,
    pub ring: Vec<UsedElem>,
}

/// One virtqueue: descriptor table, Available Ring and Used Ring, each with
/// `size` slots.  `size` is a power of two shared with the device.
pub struct Queue {
    pub size: u16,
    pub desc: Vec<Descriptor>,
    pub avail: AvailRing,
    pub used: UsedRing,
}

impl Queue {
    /// The three tables all have exactly `size` slots, and `size` divides
    /// 2^16, so reducing a free-running ring index modulo `size` is
    /// insensitive to 16-bit wraparound.
    pub open spec fn wf(self) -> bool {
        &&& 0 < self.size
        &&& 0x1_0000int % (self.size as int) == 0
        &&& self.desc@.len() == self.size as int
        &&& self.avail.ring@.len() == self.size as int
        &&& self.used.ring@.len() == self.size as int
    }

    /// A freshly allocated queue: zero-filled page-aligned memory, both ring
    /// indices at zero.
    pub fn new(size: u16) -> (q: Queue)
        requires
            0 < size,
            0x1_0000int % (size as int) == 0,
        ensures
            q.wf(),
            q.size == size,
            q.avail.flags == 0,
            q.avail.idx == 0,
            q.used.flags == 0,
            q.used.idx == 0,
            forall|s: int|
                0 <= s < size as int ==> q.desc@[s] == (Descriptor {
                    addr: 0,
                    len: 0,
                    flags: 0,
                    next: 0,
                }),
            forall|s: int| 0 <= s < size as int ==> q.avail.ring@[s] == 0u16,
            forall|s: int|
                0 <= s < size as int ==> q.used.ring@[s] == (UsedElem { id: 0, len: 0 }),
    {
        let mut desc: Vec<Descriptor> = Vec::new();
        let mut avail_ring: Vec<u16> = Vec::new();
        let mut used_ring: Vec<UsedElem> = Vec::new();
        let mut i: u16 = 0;
        while i < size
            invariant
                i <= size,
                desc@.len() == i as int,
                avail_ring@.len() == i as int,
                used_ring@.len() == i as int,
                forall|s: int|
                    0 <= s < i as int ==> desc@[s] == (Descriptor {
                        addr: 0,
                        len: 0,
                        flags: 0,
                        next: 0,
                    }),
                forall|s: int| 0 <= s < i as int ==> avail_ring@[s] == 0u16,
                forall|s: int| 0 <= s < i as int ==> used_ring@[s] == (UsedElem { id: 0, len: 0 }),
            decreases size as int - i as int,
        {
            desc.push(Descriptor { addr: 0, len: 0, flags: 0, next: 0 });
            avail_ring.push(0);
            used_ring.push(UsedElem { id: 0, len: 0 });
            i = i + 1;
        }
        Queue {
            size,
            desc,
            avail: AvailRing { flags: 0, idx: 0, ring: avail_ring },
            used: UsedRing { flags: 0, idx: 0, ring: used_ring },
        }
    }
}

/// The flags of the `i`-th descriptor of a chain of `k` regions: every
/// descriptor but the last carries `VIRTIO_DESC_F_NEXT`, and a region the
/// device writes into carries `VIRTIO_DESC_F_WRITE`.
pub open spec fn chain_flags(regions: Seq<ChainRegion>, i: int) -> u16 {
    (if i + 1 < regions.len() {
        VIRTIO_DESC_F_NEXT
    } else {
        0
    }) | (if regions[i].device_writes {
        VIRTIO_DESC_F_WRITE
    } else {
        0
    })
}

/// The descriptor written for the `i`-th region of a chain laid out in
/// successive slots starting at `head` on a ring of `n` slots: every
/// descriptor but the last points `next` at the following slot, and the last
/// carries the terminator value 0 in `next`.
pub open spec fn chain_desc(regions: Seq<ChainRegion>, i: int, head: int, n: int) -> Descriptor {
    Descriptor {
        addr: regions[i].addr,
        len: regions[i].len,
        flags: chain_flags(regions, i),
        next: if i + 1 < regions.len() {
            add_mod(head, i + 1, n) as u16
        } else {
            0
        },
    }
}

} // verus!
