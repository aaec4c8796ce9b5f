//! Descriptor/Available/Used ring mechanics and the request-memory ownership
//! protocol.
//!
//! The transport submits descriptor chains into a virtqueue and reclaims the
//! request memory of completed chains.  A request block is owned by the
//! driver until `submit_chain` hands the device transient access to it; the
//! device signals release only through the Used Ring, and `reap_completions`
//! is the only path that releases a block, exactly once per completion.
//!
//! The model is single-threaded: the ordering a real driver enforces with
//! store barriers — descriptor contents before the Available index bump,
//! the bump before the notify — is the program order of these functions.

use crate::modmath::{
    add_mod, dist16, lemma_add_mod_assoc, lemma_add_mod_bound, lemma_add_mod_eval,
    lemma_add_mod_inj, lemma_dist16_eval, lemma_dist16_step_hi, lemma_dist16_step_lo,
    lemma_dist16_recover, lemma_dist16_zero, lemma_dist16_zero_iff_eq, lemma_add_mod_wrap16_left,
    lemma_wrap16_chain, lemma_wrap16_eval, lemma_wrap16_mod, wrap16,
};
use crate::ring::{
    chain_desc, ChainRegion, Descriptor, Queue, UsedElem, VIRTIO_DESC_F_NEXT, VIRTIO_DESC_F_WRITE,
};
use vstd::pervasive::VecAdditionalExecFns;
use vstd::prelude::*;

verus! {

/// The record the driver keeps of one in-flight request: the slot of its head
/// descriptor, how many consecutive slots the chain occupies, and the address
/// of its request block (which equals the head descriptor's address by
/// construction).
#[derive(Clone, Copy, PartialEq, Eq, Structural, Debug)]
pub struct InFlight {
    pub head: u16,
    pub len: u16,
    pub addr: u64,
}

/// Total number of descriptor slots occupied by the in-flight records from
/// position `j` to the end of the list.
pub open spec fn suffix_slots(s: Seq<InFlight>, j: int) -> int
    decreases s.len() - j when j <= s.len()
{
    if j < 0 || j >= s.len() {
        0
    } else {
        s[j].len as int + suffix_slots(s, j + 1)
    }
}

/// Total number of descriptor slots occupied by all in-flight chains.
pub open spec fn outstanding_slots(s: Seq<InFlight>) -> int {
    suffix_slots(s, 0)
}

/// Suffix counts never go negative.
pub proof fn lemma_suffix_slots_nonneg(s: Seq<InFlight>, j: int)
    requires
        j <= s.len(),
    ensures
        0 <= suffix_slots(s, j),
    decreases s.len() - j,
{
    if 0 <= j < s.len() {
        lemma_suffix_slots_nonneg(s, j + 1);
    }
}

/// Dropping records from the front only shrinks the count.
pub proof fn lemma_suffix_slots_mono(s: Seq<InFlight>, i: int, j: int)
    requires
        0 <= i <= j <= s.len(),
    ensures
        suffix_slots(s, j) <= suffix_slots(s, i),
    decreases j - i,
{
    if i < j {
        lemma_suffix_slots_mono(s, i + 1, j);
    }
}

/// Appending a record adds its slots to every suffix count.
pub proof fn lemma_suffix_slots_push(s: Seq<InFlight>, r: InFlight, j: int)
    requires
        0 <= j <= s.len(),
    ensures
        suffix_slots(s.push(r), j) == suffix_slots(s, j) + r.len as int,
    decreases s.len() - j,
{
    if j < s.len() {
        lemma_suffix_slots_push(s, r, j + 1);
        assert(s.push(r)[j] == s[j]);
    } else {
        assert(s.push(r)[j] == r);
        assert(suffix_slots(s.push(r), j + 1) == 0);
    }
}

/// Removing the front record leaves the suffix counts of the rest untouched.
pub proof fn lemma_suffix_slots_drop_first(s: Seq<InFlight>, j: int)
    requires
        1 <= s.len(),
        0 <= j <= s.len() - 1,
    ensures
        suffix_slots(s.subrange(1, s.len() as int), j) == suffix_slots(s, j + 1),
    decreases s.len() - j,
{
    let t = s.subrange(1, s.len() as int);
    if j < t.len() {
        lemma_suffix_slots_drop_first(s, j + 1);
        assert(t[j] == s[j + 1]);
    }
}

/// There are at least as many occupied slots as in-flight chains: every chain
/// occupies at least one slot.
pub proof fn lemma_records_le_slots(s: Seq<InFlight>, j: int)
    requires
        0 <= j <= s.len(),
        forall|i: int| 0 <= i < s.len() ==> 1 <= #[trigger] s[i].len,
    ensures
        s.len() - j <= suffix_slots(s, j),
    decreases s.len() - j,
{
    if j < s.len() {
        lemma_records_le_slots(s, j + 1);
    }
}

/// Driver-side state of one virtqueue: the shared rings, the next-free-slot
/// cursor `idx`, the acknowledged-completion counter `ack_used_idx`, and the
/// records of the chains currently owned by the device.
pub struct Transport {
    pub queue: Queue,
    pub idx: u16,
    pub ack_used_idx: u16,
    pub in_flight: Vec<InFlight>,
}

impl Transport {
    /// How many completions the device has posted that the driver has not yet
    /// acknowledged.
    pub open spec fn pending_completions(self) -> int {
        dist16(self.ack_used_idx as int, self.queue.used.idx as int)
    }

    /// The single-writer/single-reader ring discipline:
    /// - the in-flight chains occupy consecutive slot ranges that end exactly
    ///   at the cursor `idx`, so a chain's head is determined by the slots the
    ///   chains after it occupy;
    /// - at most the whole ring is outstanding;
    /// - the head descriptor of every in-flight chain still carries the
    ///   address of its request block;
    /// - the completions posted but not yet acknowledged are exactly the
    ///   oldest pending in-flight chains, in order, and their Used Ring
    ///   entries carry those chains' head indices.
    pub open spec fn wf(self) -> bool {
        let n = self.queue.size as int;
        let fl = self.in_flight@;
        &&& self.queue.wf()
        &&& self.idx < self.queue.size
        &&& outstanding_slots(fl) <= n
        &&& forall|j: int|
            0 <= j < fl.len() ==> {
                &&& 1 <= (#[trigger] fl[j]).len
                &&& fl[j].head < self.queue.size
                &&& add_mod(fl[j].head as int, suffix_slots(fl, j), n) == self.idx as int
                &&& self.queue.desc@[fl[j].head as int].addr == fl[j].addr
            }
        &&& self.pending_completions() <= fl.len()
        &&& forall|i: int|
            0 <= i < self.pending_completions()
                ==> (#[trigger] self.queue.used.ring@[add_mod(
                self.ack_used_idx as int,
                i,
                n,
            )]).id == fl[i].head as u32
    }

    /// Some descriptor slot of this in-flight chain is the given slot.
    pub open spec fn slot_in_flight(self, s: int) -> bool {
        exists|j: int, off: int|
            0 <= j < self.in_flight@.len() && 0 <= off < self.in_flight@[j].len as int && s
                == add_mod(self.in_flight@[j].head as int, off, self.queue.size as int)
    }

    /// What one call of `submit_chain` does: `post` is `pre` with the chain's
    /// descriptors written in successive slots starting at the cursor, the
    /// head slot appended to the Available Ring, the Available index bumped,
    /// and the chain recorded as in flight.  Nothing else changes.
    pub open spec fn submit_rel(
        pre: Transport,
        regions: Seq<ChainRegion>,
        post: Transport,
        head: u16,
    ) -> bool {
        let n = pre.queue.size as int;
        let k = regions.len() as int;
        &&& head == pre.idx
        &&& post.queue.size == pre.queue.size
        &&& post.idx as int == add_mod(pre.idx as int, k, n)
        &&& post.queue.desc@.len() == pre.queue.desc@.len()
        &&& forall|i: int|
            0 <= i < k ==> post.queue.desc@[add_mod(head as int, i, n)] == chain_desc(
                regions,
                i,
                head as int,
                n,
            )
        &&& forall|s: int|
            0 <= s < n && (forall|i: int| 0 <= i < k ==> s != add_mod(head as int, i, n))
                ==> post.queue.desc@[s] == pre.queue.desc@[s]
        &&& post.queue.avail.flags == pre.queue.avail.flags
        &&& post.queue.avail.idx as int == wrap16(pre.queue.avail.idx as int + 1)
        &&& post.queue.avail.ring@ == pre.queue.avail.ring@.update(
            pre.queue.avail.idx as int % n,
            head,
        )
        &&& post.queue.used == pre.queue.used
        &&& post.ack_used_idx == pre.ack_used_idx
        &&& post.in_flight@ == pre.in_flight@.push(
            InFlight { head, len: k as u16, addr: regions[0].addr },
        )
    }

    /// What one posted completion does: `post` is `pre` with a Used Ring
    /// entry for the oldest in-flight chain not yet completed written at the
    /// Used index, and the Used index bumped.  Nothing on the driver side
    /// changes.
    pub open spec fn complete_rel(pre: Transport, written_len: u32, post: Transport) -> bool {
        let n = pre.queue.size as int;
        let d = pre.pending_completions();
        &&& post.queue.used.idx as int == wrap16(pre.queue.used.idx as int + 1)
        &&& post.queue.used.ring@ == pre.queue.used.ring@.update(
            pre.queue.used.idx as int % n,
            UsedElem { id: pre.in_flight@[d].head as u32, len: written_len },
        )
        &&& post.queue.used.flags == pre.queue.used.flags
        &&& post.queue.desc == pre.queue.desc
        &&& post.queue.avail == pre.queue.avail
        &&& post.queue.size == pre.queue.size
        &&& post.idx == pre.idx
        &&& post.ack_used_idx == pre.ack_used_idx
        &&& post.in_flight == pre.in_flight
    }

    /// What one call of `reap_completions` does: the completions in
    /// `[ack_used_idx, used.idx)` are consumed exactly once, in order; the
    /// request block of each is released exactly once; `ack_used_idx`
    /// advances to `used.idx`.  The rings themselves are untouched.
    pub open spec fn reap_rel(pre: Transport, post: Transport, freed: Seq<u64>) -> bool {
        let d = pre.pending_completions();
        &&& freed.len() == d
        &&& forall|i: int| 0 <= i < d ==> freed[i] == pre.in_flight@[i].addr
        &&& post.in_flight@ == pre.in_flight@.subrange(d, pre.in_flight@.len() as int)
        &&& post.ack_used_idx == pre.queue.used.idx
        &&& post.queue == pre.queue
        &&& post.idx == pre.idx
    }

    /// Models the device posting one completion: a synthetic Used Ring entry
    /// for the oldest in-flight chain that has none yet, carrying
    /// `written_len` as the written-byte count.  The device posts completions
    /// in order and only for chains it owns.
    pub fn device_complete(&mut self, written_len: u32)
        requires
            old(self).wf(),
            old(self).pending_completions() < old(self).in_flight@.len(),
        ensures
            final(self).wf(),
            Transport::complete_rel(*old(self), written_len, *final(self)),
    {
        let ghost pre = *old(self);
        let n = self.queue.size;
        proof {
            lemma_dist16_eval(pre.ack_used_idx as int, pre.queue.used.idx as int);
        }
        let d = self.queue.used.idx.wrapping_sub(self.ack_used_idx);
        let rec = self.in_flight[d as usize];
        let slot = (self.queue.used.idx % n) as usize;
        self.queue.used.ring.set(slot, UsedElem { id: rec.head as u32, len: written_len });
        self.queue.used.idx = self.queue.used.idx.wrapping_add(1);
        proof {
            let n_ = n as int;
            let ack = pre.ack_used_idx as int;
            let used = pre.queue.used.idx as int;
            let d_ = pre.pending_completions();
            let fl = self.in_flight@;
            lemma_wrap16_eval(used + 1);
            // the entry was written at the slot `d_` places past the
            // acknowledged counter
            lemma_dist16_recover(ack, used);
            lemma_wrap16_mod(ack + d_, n_);
            assert(used % n_ == add_mod(ack, d_, n_));
            // one more completion is now pending
            lemma_records_le_slots(fl, 0);
            lemma_suffix_slots_mono(fl, 0, 0);
            lemma_dist16_step_hi(ack, used);
            assert(self.pending_completions() == d_ + 1);
            // the older pending entries were not overwritten
            assert forall|i: int|
                0 <= i < self.pending_completions()
                    implies (#[trigger] self.queue.used.ring@[add_mod(ack, i, n_)]).id
                    == fl[i].head as u32 by {
                if i < d_ {
                    if add_mod(ack, i, n_) == add_mod(ack, d_, n_) {
                        lemma_add_mod_inj(ack, i, d_, n_);
                    }
                } else {
                    lemma_add_mod_bound(ack, d_, n_);
                }
            }
        }
    }

    /// Walks the Used Ring from `ack_used_idx` to `used.idx`, consuming each
    /// completion exactly once, in order: looks up the descriptor named by
    /// the entry, recovers the request block's address from it (the head
    /// descriptor's address equals the block's address by construction), and
    /// releases that block.  Returns the released addresses; this is the only
    /// path that releases request memory.
    ///
    /// Invoked from the interrupt path; calling it when nothing is pending is
    /// a no-op.
    pub fn reap_completions(&mut self) -> (freed: Vec<u64>)
        requires
            old(self).wf(),
        ensures
            final(self).wf(),
            Transport::reap_rel(*old(self), *final(self), freed@),
            old(self).pending_completions() == 0 ==> freed@.len() == 0 && *final(self) == *old(
                self,
            ),
    {
        let ghost pre = *old(self);
        let n = self.queue.size;
        let mut freed: Vec<u64> = Vec::new();
        proof {
            lemma_dist16_eval(pre.ack_used_idx as int, pre.queue.used.idx as int);
        }
        while self.ack_used_idx != self.queue.used.idx
            invariant
                self.wf(),
                n == self.queue.size,
                self.queue == pre.queue,
                self.idx == pre.idx,
                pre.wf(),
                0 <= self.pending_completions() <= pre.pending_completions(),
                freed@.len() == pre.pending_completions() - self.pending_completions(),
                forall|i: int| 0 <= i < freed@.len() ==> freed@[i] == pre.in_flight@[i].addr,
                self.in_flight@ == pre.in_flight@.subrange(
                    freed@.len() as int,
                    pre.in_flight@.len() as int,
                ),
                freed@.len() == 0 ==> *self == pre,
            decreases self.pending_completions(),
        {
            proof {
                lemma_dist16_zero_iff_eq(self.ack_used_idx as int, self.queue.used.idx as int);
            }
            let ghost cur = *self;
            let ghost done = freed@.len() as int;
            let slot = (self.ack_used_idx % n) as usize;
            let elem = self.queue.used.ring[slot];
            proof {
                assert(add_mod(cur.ack_used_idx as int, 0, n as int) == cur.ack_used_idx as int
                    % n as int);
                assert(elem.id == cur.in_flight@[0].head as u32);
            }
            let desc = self.queue.desc[elem.id as usize];
            freed.push(desc.addr);
            self.in_flight.remove(0);
            self.ack_used_idx = self.ack_used_idx.wrapping_add(1);
            proof {
                let n_ = n as int;
                let ack = cur.ack_used_idx as int;
                let fl = cur.in_flight@;
                let fl2 = self.in_flight@;
                lemma_wrap16_eval(ack + 1);
                lemma_dist16_step_lo(ack, cur.queue.used.idx as int);
                assert(self.pending_completions() == cur.pending_completions() - 1);
                assert(fl2 =~= fl.subrange(1, fl.len() as int));
                assert(fl2 =~= pre.in_flight@.subrange(done + 1, pre.in_flight@.len() as int));
                assert(freed@[done] == pre.in_flight@[done].addr);
                // the remaining records still close their ranges at the cursor
                assert forall|j: int| 0 <= j < fl2.len() implies {
                    &&& 1 <= (#[trigger] fl2[j]).len
                    &&& fl2[j].head < self.queue.size
                    &&& add_mod(fl2[j].head as int, suffix_slots(fl2, j), n_) == self.idx as int
                    &&& self.queue.desc@[fl2[j].head as int].addr == fl2[j].addr
                } by {
                    lemma_suffix_slots_drop_first(fl, j);
                    assert(fl2[j] == fl[j + 1]);
                }
                lemma_suffix_slots_drop_first(fl, 0);
                lemma_suffix_slots_mono(fl, 0, 1);
                // the still-pending entries sit one slot further along
                assert forall|i: int|
                    0 <= i < self.pending_completions()
                        implies (#[trigger] self.queue.used.ring@[add_mod(
                        self.ack_used_idx as int,
                        i,
                        n_,
                    )]).id == fl2[i].head as u32 by {
                    lemma_add_mod_wrap16_left(ack + 1, i, n_);
                    assert(add_mod(self.ack_used_idx as int, i, n_) == add_mod(ack, i + 1, n_));
                    assert(cur.queue.used.ring@[add_mod(ack, i + 1, n_)].id == fl[i + 1].head
                        as u32);
                }
            }
        }
        proof {
            lemma_dist16_zero_iff_eq(self.ack_used_idx as int, self.queue.used.idx as int);
            assert(self.in_flight@ =~= pre.in_flight@.subrange(
                pre.pending_completions(),
                pre.in_flight@.len() as int,
            ));
        }
        freed
    }

    /// A transport over a freshly allocated queue: nothing submitted, nothing
    /// pending.
    pub fn new(size: u16) -> (t: Transport)
        requires
            0 < size,
            0x1_0000int % (size as int) == 0,
        ensures
            t.wf(),
            t.queue.size == size,
            t.idx == 0,
            t.ack_used_idx == 0,
            t.in_flight@ =~= Seq::<InFlight>::empty(),
            t.queue.avail.flags == 0,
            t.queue.avail.idx == 0,
            t.queue.used.flags == 0,
            t.queue.used.idx == 0,
            forall|s: int|
                0 <= s < size as int ==> t.queue.desc@[s] == (Descriptor {
                    addr: 0,
                    len: 0,
                    flags: 0,
                    next: 0,
                }),
            forall|s: int| 0 <= s < size as int ==> t.queue.avail.ring@[s] == 0u16,
            forall|s: int|
                0 <= s < size as int ==> t.queue.used.ring@[s] == (UsedElem { id: 0, len: 0 }),
    {
        let t = Transport {
            queue: Queue::new(size),
            idx: 0,
            ack_used_idx: 0,
            in_flight: Vec::new(),
        };
        proof {
            lemma_dist16_zero(0);
        }
        t
    }
}

impl Transport {
    /// Writes each region of a request chain into successive descriptor slots
    /// starting at the cursor, wrapping modulo the ring size; every
    /// descriptor but the last gets `VIRTIO_DESC_F_NEXT` set and `next`
    /// pointing at the following slot.  Appends the head slot to the
    /// Available Ring and bumps its index.  Ownership of the request block
    /// passes to the transport; it is released only through
    /// `reap_completions`.
    ///
    /// Total outstanding slots must not exceed the ring size: exceeding
    /// capacity is a caller error, checked by `try_submit_chain`.
    pub fn submit_chain(&mut self, regions: &Vec<ChainRegion>) -> (head: u16)
        requires
            old(self).wf(),
            1 <= regions@.len(),
            outstanding_slots(old(self).in_flight@) + regions@.len() <= old(
                self,
            ).queue.size as int,
        ensures
            final(self).wf(),
            Transport::submit_rel(*old(self), regions@, *final(self), head),
    {
        let ghost pre = *old(self);
        let n = self.queue.size;
        let k = regions.len();
        let head = self.idx;
        proof {
            lemma_suffix_slots_nonneg(pre.in_flight@, 0);
            lemma_add_mod_eval(head as int, 0, n as int);
        }
        let mut i: usize = 0;
        while i < k
            invariant
                self.queue.size == n,
                n == pre.queue.size,
                pre.wf(),
                1 <= k,
                k == regions@.len(),
                outstanding_slots(pre.in_flight@) + k <= n as int,
                0 <= outstanding_slots(pre.in_flight@),
                head == pre.idx,
                i <= k,
                self.idx as int == add_mod(head as int, i as int, n as int),
                self.idx < n,
                self.queue.desc@.len() == n as int,
                forall|j: int|
                    0 <= j < i as int ==> self.queue.desc@[add_mod(head as int, j, n as int)]
                        == chain_desc(regions@, j, head as int, n as int),
                forall|s: int|
                    0 <= s < n as int && (forall|j: int|
                        0 <= j < i as int ==> s != add_mod(head as int, j, n as int))
                        ==> self.queue.desc@[s] == pre.queue.desc@[s],
                self.queue.avail == pre.queue.avail,
                self.queue.used == pre.queue.used,
                self.ack_used_idx == pre.ack_used_idx,
                self.in_flight == pre.in_flight,
            decreases k as int - i as int,
        {
            let ghost desc_before = self.queue.desc@;
            let ghost pos = add_mod(head as int, i as int, n as int);
            let slot = self.idx as usize;
            let fnext: u16 = if i + 1 < k {
                VIRTIO_DESC_F_NEXT
            } else {
                0
            };
            let fwrite: u16 = if regions[i].device_writes {
                VIRTIO_DESC_F_WRITE
            } else {
                0
            };
            let next: u16 = if i + 1 < k {
                (self.idx + 1) % n
            } else {
                0
            };
            let d = Descriptor {
                addr: regions[i].addr,
                len: regions[i].len,
                flags: fnext | fwrite,
                next,
            };
            proof {
                lemma_add_mod_assoc(head as int, i as int, 1, n as int);
                lemma_add_mod_bound(head as int, i as int + 1, n as int);
                assert(d == chain_desc(regions@, i as int, head as int, n as int));
            }
            self.queue.desc.set(slot, d);
            self.idx = (self.idx + 1) % n;
            proof {
                assert forall|j: int|
                    0 <= j < i as int + 1 implies self.queue.desc@[add_mod(
                    head as int,
                    j,
                    n as int,
                )] == chain_desc(regions@, j, head as int, n as int) by {
                    if j < i as int {
                        if add_mod(head as int, j, n as int) == pos {
                            lemma_add_mod_inj(head as int, j, i as int, n as int);
                        }
                        assert(self.queue.desc@[add_mod(head as int, j, n as int)]
                            == desc_before[add_mod(head as int, j, n as int)]);
                    }
                }
                assert forall|s: int|
                    0 <= s < n as int && (forall|j: int|
                        0 <= j < i as int + 1 ==> s != add_mod(head as int, j, n as int))
                        implies self.queue.desc@[s] == pre.queue.desc@[s] by {
                    assert(s != pos);
                    assert(desc_before[s] == pre.queue.desc@[s]);
                }
            }
            i = i + 1;
        }
        let aslot = (self.queue.avail.idx % n) as usize;
        let ghost avail_idx_pre = self.queue.avail.idx;
        self.queue.avail.ring.set(aslot, head);
        self.queue.avail.idx = self.queue.avail.idx.wrapping_add(1);
        let rec = InFlight { head, len: k as u16, addr: regions[0].addr };
        self.in_flight.push(rec);
        proof {
            lemma_wrap16_eval(avail_idx_pre as int + 1);
            let fl = pre.in_flight@;
            let fl2 = self.in_flight@;
            let n_ = n as int;
            let k_ = k as int;
            assert(fl2 == fl.push(rec));
            // the head slot keeps the request block's address
            assert(add_mod(head as int, 0, n_) == head as int) by {
                lemma_add_mod_eval(head as int, 0, n_);
            }
            assert(self.queue.desc@[head as int] == chain_desc(regions@, 0, head as int, n_));
            // old records keep their slots, heads, and head addresses
            assert forall|j: int| 0 <= j < fl.len() implies {
                &&& 1 <= (#[trigger] fl2[j]).len
                &&& fl2[j].head < self.queue.size
                &&& add_mod(fl2[j].head as int, suffix_slots(fl2, j), n_) == self.idx as int
                &&& self.queue.desc@[fl2[j].head as int].addr == fl2[j].addr
            } by {
                assert(fl2[j] == fl[j]);
                lemma_suffix_slots_push(fl, rec, j);
                lemma_add_mod_assoc(fl[j].head as int, suffix_slots(fl, j), k_, n_);
                // the chain was written only into slots no in-flight chain owns
                assert forall|ii: int|
                    0 <= ii < k_ implies fl[j].head as int != add_mod(head as int, ii, n_) by {
                    lemma_fresh_slots(pre, k_, ii);
                    lemma_add_mod_eval(fl[j].head as int, 0, n_);
                    assert(add_mod(fl[j].head as int, 0, n_) == fl[j].head as int);
                    if fl[j].head as int == add_mod(head as int, ii, n_) {
                        assert(pre.slot_in_flight(add_mod(head as int, ii, n_)));
                    }
                }
                assert(self.queue.desc@[fl[j].head as int] == pre.queue.desc@[fl[j].head as int]);
            }
            // the new record closes the occupied range at the new cursor
            assert(suffix_slots(fl2, fl.len() as int) == k_) by {
                assert(suffix_slots(fl2, fl2.len() as int) == 0);
            }
            lemma_suffix_slots_push(fl, rec, 0);
            // completions pending before are still the oldest records
            assert(self.pending_completions() == pre.pending_completions());
            assert forall|i2: int|
                0 <= i2 < self.pending_completions()
                    implies (#[trigger] self.queue.used.ring@[add_mod(
                    self.ack_used_idx as int,
                    i2,
                    n_,
                )]).id == fl2[i2].head as u32 by {
                assert(fl2[i2] == fl[i2]);
            }
        }
        head
    }
}

impl Transport {
    /// Number of descriptor slots currently owned by in-flight chains.
    pub fn outstanding(&self) -> (r: u32)
        requires
            self.wf(),
        ensures
            r as int == outstanding_slots(self.in_flight@),
    {
        let mut sum: u32 = 0;
        let mut i: usize = self.in_flight.len();
        while i > 0
            invariant
                self.wf(),
                i <= self.in_flight@.len(),
                sum as int == suffix_slots(self.in_flight@, i as int),
            decreases i,
        {
            i = i - 1;
            proof {
                lemma_suffix_slots_mono(self.in_flight@, 0, i as int);
            }
            sum = sum + self.in_flight[i].len as u32;
        }
        sum
    }

    /// Checked submission: submits only when the chain fits in the free
    /// descriptor slots, and reports the capacity violation otherwise,
    /// leaving the rings untouched.
    pub fn try_submit_chain(&mut self, regions: &Vec<ChainRegion>) -> (r: Option<u16>)
        requires
            old(self).wf(),
            1 <= regions@.len(),
        ensures
            final(self).wf(),
            r is Some <==> outstanding_slots(old(self).in_flight@) + regions@.len() <= old(
                self,
            ).queue.size as int,
            r matches Some(head) ==> Transport::submit_rel(*old(self), regions@, *final(self), head),
            r is None ==> *final(self) == *old(self),
    {
        let outstanding = self.outstanding();
        let size = self.queue.size as usize;
        if regions.len() <= size && outstanding as usize <= size - regions.len() {
            Some(self.submit_chain(regions))
        } else {
            proof {
                lemma_suffix_slots_nonneg(self.in_flight@, 0);
            }
            None
        }
    }
}

/// Total number of descriptor slots the first `j` chains of a sequence of
/// chains ask for.
pub open spec fn chains_slots(chains: Seq<Vec<ChainRegion>>, j: int) -> int
    decreases j,
{
    if j <= 0 {
        0
    } else {
        chains_slots(chains, j - 1) + chains[j - 1]@.len()
    }
}

/// Prefix slot counts never shrink as the prefix grows.
pub proof fn lemma_chains_slots_mono(chains: Seq<Vec<ChainRegion>>, i: int, j: int)
    requires
        0 <= i <= j <= chains.len(),
    ensures
        chains_slots(chains, i) <= chains_slots(chains, j),
    decreases j,
{
    if i < j {
        lemma_chains_slots_mono(chains, i, j - 1);
    }
}

/// Nonempty chains ask for at least one slot each.
pub proof fn lemma_chains_count_le_slots(chains: Seq<Vec<ChainRegion>>, j: int)
    requires
        0 <= j <= chains.len(),
        forall|i: int| 0 <= i < chains.len() ==> 1 <= #[trigger] chains[i]@.len(),
    ensures
        j <= chains_slots(chains, j),
    decreases j,
{
    if 0 < j {
        lemma_chains_count_le_slots(chains, j - 1);
    }
}

impl Transport {
    /// Submits a sequence of chains in order.  For every sequence that fits
    /// within the ring, the Available Ring records, in submission order,
    /// exactly the descriptor-table slot each chain's first descriptor was
    /// written to, and those first descriptors are still in place when all
    /// submissions are done.
    #[verifier::rlimit(100)]
    pub fn submit_chains(&mut self, chains: &Vec<Vec<ChainRegion>>) -> (heads: Vec<u16>)
        requires
            old(self).wf(),
            forall|j: int| 0 <= j < chains@.len() ==> 1 <= #[trigger] chains@[j]@.len(),
            outstanding_slots(old(self).in_flight@) + chains_slots(chains@, chains@.len() as int)
                <= old(self).queue.size as int,
        ensures
            final(self).wf(),
            heads@.len() == chains@.len(),
            forall|j: int|
                0 <= j < chains@.len() ==> #[trigger] heads@[j] as int == add_mod(
                    old(self).idx as int,
                    chains_slots(chains@, j),
                    old(self).queue.size as int,
                ),
            forall|j: int|
                0 <= j < chains@.len() ==> final(self).queue.desc@[#[trigger] heads@[j] as int]
                    == chain_desc(chains@[j]@, 0, heads@[j] as int, old(self).queue.size as int),
            forall|j: int|
                0 <= j < chains@.len() ==> final(self).queue.avail.ring@[add_mod(
                    old(self).queue.avail.idx as int,
                    j,
                    old(self).queue.size as int,
                )] == heads@[j],
            final(self).queue.avail.idx as int == wrap16(
                old(self).queue.avail.idx as int + chains@.len(),
            ),
            final(self).queue.used == old(self).queue.used,
            final(self).ack_used_idx == old(self).ack_used_idx,
            final(self).in_flight@.len() == old(self).in_flight@.len() + chains@.len(),
            forall|i: int|
                0 <= i < old(self).in_flight@.len() ==> final(self).in_flight@[i] == old(
                    self,
                ).in_flight@[i],
            forall|j: int|
                0 <= j < chains@.len() ==> final(self).in_flight@[old(self).in_flight@.len() + j]
                    == (InFlight {
                    head: heads@[j],
                    len: (#[trigger] chains@[j])@.len() as u16,
                    addr: chains@[j]@[0].addr,
                }),
    {
        let ghost pre = *old(self);
        let ghost n_ = pre.queue.size as int;
        let ghost a0 = pre.queue.avail.idx as int;
        let ghost total = chains_slots(chains@, chains@.len() as int);
        let mut heads: Vec<u16> = Vec::new();
        let mut j: usize = 0;
        proof {
            lemma_suffix_slots_nonneg(pre.in_flight@, 0);
            lemma_add_mod_eval(pre.idx as int, 0, n_);
            lemma_wrap16_eval(a0);
        }
        while j < chains.len()
            invariant
                self.queue.size == pre.queue.size,
                n_ == pre.queue.size as int,
                a0 == pre.queue.avail.idx as int,
                pre.wf(),
                self.wf(),
                forall|i: int| 0 <= i < chains@.len() ==> 1 <= #[trigger] chains@[i]@.len(),
                outstanding_slots(pre.in_flight@) + total <= n_,
                0 <= outstanding_slots(pre.in_flight@),
                total == chains_slots(chains@, chains@.len() as int),
                j <= chains@.len(),
                heads@.len() == j as int,
                self.idx as int == add_mod(pre.idx as int, chains_slots(chains@, j as int), n_),
                outstanding_slots(self.in_flight@) == outstanding_slots(pre.in_flight@)
                    + chains_slots(chains@, j as int),
                self.queue.avail.idx as int == wrap16(a0 + j as int),
                self.queue.avail.flags == pre.queue.avail.flags,
                self.queue.avail.ring@.len() == n_,
                self.queue.used == pre.queue.used,
                self.ack_used_idx == pre.ack_used_idx,
                self.in_flight@.len() == pre.in_flight@.len() + j as int,
                forall|i: int|
                    0 <= i < pre.in_flight@.len() ==> self.in_flight@[i] == pre.in_flight@[i],
                forall|i: int|
                    0 <= i < j as int ==> self.in_flight@[pre.in_flight@.len() + i] == (InFlight {
                        head: heads@[i],
                        len: (#[trigger] chains@[i])@.len() as u16,
                        addr: chains@[i]@[0].addr,
                    }),
                forall|i: int|
                    0 <= i < j as int ==> #[trigger] heads@[i] as int == add_mod(
                        pre.idx as int,
                        chains_slots(chains@, i),
                        n_,
                    ),
                forall|i: int|
                    0 <= i < j as int ==> self.queue.desc@[#[trigger] heads@[i] as int]
                        == chain_desc(chains@[i]@, 0, heads@[i] as int, n_),
                forall|i: int|
                    0 <= i < j as int ==> self.queue.avail.ring@[add_mod(a0, i, n_)] == heads@[i],
            decreases chains@.len() - j as int,
        {
            let ghost cur = *self;
            let ghost jj = j as int;
            let ghost k = chains@[jj]@.len() as int;
            proof {
                lemma_chains_slots_mono(chains@, 0, jj);
                lemma_chains_slots_mono(chains@, jj + 1, chains@.len() as int);
                lemma_chains_count_le_slots(chains@, chains@.len() as int);
                assert(chains_slots(chains@, jj + 1) == chains_slots(chains@, jj) + k);
                assert(1 <= k <= n_);
                assert(chains@.len() as int <= n_);
            }
            let head = self.submit_chain(&chains[j]);
            heads.push(head);
            proof {
                let fl_cur = cur.in_flight@;
                let rec = InFlight {
                    head,
                    len: k as u16,
                    addr: chains@[jj]@[0].addr,
                };
                assert(rec.len as int == k);
                assert(self.in_flight@ == fl_cur.push(rec));
                lemma_suffix_slots_push(fl_cur, rec, 0);
                lemma_add_mod_assoc(pre.idx as int, chains_slots(chains@, jj), k, n_);
                // the new head is where this chain's first descriptor went
                lemma_add_mod_eval(head as int, 0, n_);
                assert(self.queue.desc@[head as int] == chain_desc(chains@[jj]@, 0, head as int, n_));
                // earlier chains' first descriptors were not overwritten:
                // the slots just written were free, earlier heads are not
                assert forall|i: int|
                    0 <= i < jj implies self.queue.desc@[#[trigger] heads@[i] as int]
                    == chain_desc(chains@[i]@, 0, heads@[i] as int, n_) by {
                    let h = heads@[i] as int;
                    lemma_add_mod_bound(pre.idx as int, chains_slots(chains@, i), n_);
                    assert forall|ii: int| 0 <= ii < k implies h != add_mod(cur.idx as int, ii, n_) by {
                        lemma_fresh_slots(cur, k, ii);
                        lemma_add_mod_eval(h, 0, n_);
                        if h == add_mod(cur.idx as int, ii, n_) {
                            let rj = pre.in_flight@.len() + i;
                            assert(cur.in_flight@[rj].head as int == h);
                            assert(1 <= cur.in_flight@[rj].len);
                            assert(h == add_mod(cur.in_flight@[rj].head as int, 0, n_));
                            assert(cur.slot_in_flight(add_mod(cur.idx as int, ii, n_)));
                        }
                    }
                }
                // the Available Ring entry just written sits j slots past the
                // starting index; the earlier entries are untouched
                lemma_add_mod_wrap16_left(a0 + jj, 0, n_);
                assert(cur.queue.avail.idx as int % n_ == add_mod(a0 + jj, 0, n_));
                lemma_add_mod_assoc(a0, jj, 0, n_);
                assert(cur.queue.avail.idx as int % n_ == add_mod(a0, jj, n_));
                assert forall|i: int|
                    0 <= i < jj + 1 implies self.queue.avail.ring@[add_mod(a0, i, n_)]
                    == heads@[i] by {
                    if i < jj {
                        if add_mod(a0, i, n_) == add_mod(a0, jj, n_) {
                            lemma_add_mod_inj(a0, i, jj, n_);
                        }
                    }
                }
                lemma_wrap16_chain(a0 + jj, 1);
            }
            j = j + 1;
        }
        heads
    }
}

/// A submission touches no descriptor slot of a chain already in flight:
/// every slot of every in-flight chain reads back unchanged afterwards.
pub proof fn lemma_submit_preserves_in_flight_slots(
    pre: Transport,
    regions: Seq<ChainRegion>,
    post: Transport,
    head: u16,
    rj: int,
    off: int,
)
    requires
        pre.wf(),
        1 <= regions.len(),
        outstanding_slots(pre.in_flight@) + regions.len() <= pre.queue.size as int,
        Transport::submit_rel(pre, regions, post, head),
        0 <= rj < pre.in_flight@.len(),
        0 <= off < pre.in_flight@[rj].len as int,
    ensures
        post.queue.desc@[add_mod(pre.in_flight@[rj].head as int, off, pre.queue.size as int)]
            == pre.queue.desc@[add_mod(
            pre.in_flight@[rj].head as int,
            off,
            pre.queue.size as int,
        )],
{
    let n = pre.queue.size as int;
    let k = regions.len() as int;
    let s = add_mod(pre.in_flight@[rj].head as int, off, n);
    lemma_add_mod_bound(pre.in_flight@[rj].head as int, off, n);
    assert forall|ii: int| 0 <= ii < k implies s != add_mod(head as int, ii, n) by {
        lemma_fresh_slots(pre, k, ii);
        if s == add_mod(head as int, ii, n) {
            assert(pre.slot_in_flight(add_mod(head as int, ii, n)));
        }
    }
}

/// A submitted chain of `k` descriptors has exactly `k - 1` entries with
/// `VIRTIO_DESC_F_NEXT` set — all but the last — and the `k`-th with it
/// clear; the `next` fields form the path of successive slots, ending in the
/// unused terminator value 0 on the final descriptor.
pub proof fn lemma_chain_structure(
    pre: Transport,
    regions: Seq<ChainRegion>,
    post: Transport,
    head: u16,
)
    requires
        pre.wf(),
        1 <= regions.len(),
        regions.len() <= pre.queue.size as int,
        Transport::submit_rel(pre, regions, post, head),
    ensures
        forall|i: int|
            0 <= i < regions.len() - 1 ==> (post.queue.desc@[add_mod(
                head as int,
                i,
                pre.queue.size as int,
            )].flags & VIRTIO_DESC_F_NEXT) == VIRTIO_DESC_F_NEXT,
        forall|i: int|
            0 <= i < regions.len() - 1 ==> post.queue.desc@[add_mod(
                head as int,
                i,
                pre.queue.size as int,
            )].next as int == add_mod(head as int, i + 1, pre.queue.size as int),
        (post.queue.desc@[add_mod(
            head as int,
            regions.len() - 1,
            pre.queue.size as int,
        )].flags & VIRTIO_DESC_F_NEXT) == 0,
        post.queue.desc@[add_mod(head as int, regions.len() - 1, pre.queue.size as int)].next
            == 0,
{
    let n = pre.queue.size as int;
    let k = regions.len() as int;
    assert((1u16 | 2u16) & 1u16 == 1u16) by (bit_vector);
    assert((1u16 | 0u16) & 1u16 == 1u16) by (bit_vector);
    assert((0u16 | 2u16) & 1u16 == 0u16) by (bit_vector);
    assert((0u16 | 0u16) & 1u16 == 0u16) by (bit_vector);
    assert forall|i: int|
        0 <= i < k - 1 implies (post.queue.desc@[add_mod(head as int, i, n)].flags
        & VIRTIO_DESC_F_NEXT) == VIRTIO_DESC_F_NEXT && post.queue.desc@[add_mod(
        head as int,
        i,
        n,
    )].next as int == add_mod(head as int, i + 1, n) by {
        assert(post.queue.desc@[add_mod(head as int, i, n)] == chain_desc(
            regions,
            i,
            head as int,
            n,
        ));
    }
    assert(post.queue.desc@[add_mod(head as int, k - 1, n)] == chain_desc(
        regions,
        k - 1,
        head as int,
        n,
    ));
}

/// Round trip: a request chain submitted on an otherwise idle transport and
/// then completed by the device is reclaimed as exactly one released block —
/// the request block the chain was built over — and `ack_used_idx` advances
/// by exactly one; reclaiming again for the same completion releases nothing,
/// so the block is never freed twice.
pub proof fn lemma_round_trip(
    t0: Transport,
    regions: Seq<ChainRegion>,
    t1: Transport,
    head: u16,
    written_len: u32,
    t2: Transport,
    t3: Transport,
    freed: Seq<u64>,
)
    requires
        t0.wf(),
        t0.in_flight@.len() == 0,
        1 <= regions.len(),
        regions.len() <= t0.queue.size as int,
        Transport::submit_rel(t0, regions, t1, head),
        Transport::complete_rel(t1, written_len, t2),
        Transport::reap_rel(t2, t3, freed),
    ensures
        freed.len() == 1,
        freed[0] == regions[0].addr,
        t3.in_flight@.len() == 0,
        t3.ack_used_idx as int == wrap16(t0.ack_used_idx as int + 1),
        forall|t4: Transport, freed2: Seq<u64>|
            Transport::reap_rel(t3, t4, freed2) ==> freed2.len() == 0,
{
    let ack = t0.ack_used_idx as int;
    let used = t0.queue.used.idx as int;
    // nothing was pending before the submission
    lemma_dist16_eval(ack, used);
    assert(t0.pending_completions() <= 0);
    lemma_dist16_zero_iff_eq(ack, used);
    assert(ack == used);
    // the submission leaves one chain in flight and nothing pending
    assert(t1.in_flight@.len() == 1);
    assert(t1.in_flight@[0].addr == regions[0].addr);
    assert(t1.pending_completions() == 0);
    // the completion makes exactly that chain pending
    lemma_dist16_step_hi(ack, used);
    assert(t2.pending_completions() == 1);
    assert(t2.in_flight@ == t1.in_flight@);
    // the reclamation releases exactly its block and catches up
    assert(freed.len() == 1);
    assert(freed[0] == regions[0].addr);
    assert(t3.in_flight@.len() == 0);
    assert(t3.ack_used_idx as int == wrap16(ack + 1));
    // reclaiming again finds nothing pending
    lemma_dist16_zero(t3.ack_used_idx as int);
    assert(t3.pending_completions() == 0);
}

/// The slots a chain of `k` descriptors submitted now would occupy are free:
/// none of them belongs to an in-flight chain.  The driver therefore never
/// reissues a slot still owned by the device; a slot is reused only after the
/// chain holding it has been reclaimed.
pub proof fn lemma_fresh_slots(t: Transport, k: int, i: int)
    requires
        t.wf(),
        0 <= i < k,
        outstanding_slots(t.in_flight@) + k <= t.queue.size as int,
    ensures
        !t.slot_in_flight(add_mod(t.idx as int, i, t.queue.size as int)),
{
    let n = t.queue.size as int;
    let fl = t.in_flight@;
    let slot = add_mod(t.idx as int, i, n);
    if t.slot_in_flight(slot) {
        let (j, off) = choose|j: int, off: int|
            0 <= j < fl.len() && 0 <= off < fl[j].len as int && slot == add_mod(
                fl[j].head as int,
                off,
                n,
            );
        let sj = suffix_slots(fl, j);
        lemma_suffix_slots_nonneg(fl, j + 1);
        assert(fl[j].len as int <= sj);
        lemma_suffix_slots_mono(fl, 0, j);
        assert(sj <= outstanding_slots(fl));
        // slot == add_mod(idx, i, n) and idx == add_mod(head_j, sj, n), so the
        // slot is also head_j advanced by sj + i.
        lemma_add_mod_assoc(fl[j].head as int, sj, i, n);
        assert(slot == add_mod(fl[j].head as int, sj + i, n));
        // both advances stay within one turn of the ring, so they are equal,
        // yet off < len_j <= sj <= sj + i.
        lemma_add_mod_inj(fl[j].head as int, sj + i, off, n);
        assert(false);
    }
}

} // verus!
