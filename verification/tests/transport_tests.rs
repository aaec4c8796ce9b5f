use virtgpu::ring::{ChainRegion, Queue, VIRTIO_DESC_F_NEXT, VIRTIO_DESC_F_WRITE};
use virtgpu::transport::Transport;

fn region(addr: u64, len: u32, device_writes: bool) -> ChainRegion {
    ChainRegion { addr, len, device_writes }
}

#[test]
fn queue_new_is_zeroed() {
    let q = Queue::new(8);
    assert_eq!(q.size, 8);
    assert_eq!(q.desc.len(), 8);
    assert_eq!(q.avail.ring.len(), 8);
    assert_eq!(q.used.ring.len(), 8);
    assert_eq!(q.avail.idx, 0);
    assert_eq!(q.used.idx, 0);
    for d in &q.desc {
        assert_eq!(d.addr, 0);
        assert_eq!(d.len, 0);
        assert_eq!(d.flags, 0);
        assert_eq!(d.next, 0);
    }
}

#[test]
fn chain_of_three_has_two_next_flags_and_a_terminator() {
    let mut t = Transport::new(8);
    let regions = vec![
        region(0x1000, 40, false),
        region(0x1028, 16, false),
        region(0x1038, 24, true),
    ];
    let head = t.submit_chain(&regions);
    assert_eq!(head, 0);
    // first two descriptors carry NEXT and point at the following slot
    assert_eq!(t.queue.desc[0].flags, VIRTIO_DESC_F_NEXT);
    assert_eq!(t.queue.desc[0].next, 1);
    assert_eq!(t.queue.desc[1].flags, VIRTIO_DESC_F_NEXT);
    assert_eq!(t.queue.desc[1].next, 2);
    // the last carries WRITE only and the terminator value
    assert_eq!(t.queue.desc[2].flags, VIRTIO_DESC_F_WRITE);
    assert_eq!(t.queue.desc[2].next, 0);
    // contents went in as given
    assert_eq!(t.queue.desc[0].addr, 0x1000);
    assert_eq!(t.queue.desc[0].len, 40);
    assert_eq!(t.queue.desc[1].addr, 0x1028);
    assert_eq!(t.queue.desc[2].addr, 0x1038);
    // the head was recorded and the index bumped
    assert_eq!(t.queue.avail.ring[0], 0);
    assert_eq!(t.queue.avail.idx, 1);
    assert_eq!(t.idx, 3);
}

#[test]
fn heads_recorded_in_submission_order() {
    let mut t = Transport::new(8);
    let chains = vec![
        vec![region(0x100, 8, false), region(0x108, 8, true)],
        vec![region(0x200, 8, false)],
        vec![region(0x300, 8, false), region(0x308, 8, false), region(0x310, 8, true)],
    ];
    let heads = t.submit_chains(&chains);
    assert_eq!(heads, vec![0, 2, 3]);
    // the Available Ring holds exactly those heads, in submission order
    assert_eq!(t.queue.avail.ring[0], 0);
    assert_eq!(t.queue.avail.ring[1], 2);
    assert_eq!(t.queue.avail.ring[2], 3);
    assert_eq!(t.queue.avail.idx, 3);
    // each head slot holds that chain's first descriptor
    assert_eq!(t.queue.desc[0].addr, 0x100);
    assert_eq!(t.queue.desc[2].addr, 0x200);
    assert_eq!(t.queue.desc[3].addr, 0x300);
}

#[test]
fn round_trip_frees_exactly_one_block_once() {
    let mut t = Transport::new(8);
    let regions = vec![region(0xdead_0000, 40, false), region(0xdead_0028, 24, true)];
    let head = t.submit_chain(&regions);
    assert_eq!(head, 0);
    // synthetic completion posted by the device
    t.device_complete(24);
    assert_eq!(t.queue.used.idx, 1);
    assert_eq!(t.queue.used.ring[0].id, 0);
    assert_eq!(t.queue.used.ring[0].len, 24);
    // reclamation frees exactly one block and advances the counter by one
    let freed = t.reap_completions();
    assert_eq!(freed, vec![0xdead_0000]);
    assert_eq!(t.ack_used_idx, 1);
    // reclaiming twice for the same completion must not double-free
    let freed_again = t.reap_completions();
    assert_eq!(freed_again.len(), 0);
    assert_eq!(t.ack_used_idx, 1);
}

#[test]
fn reclaimer_is_a_no_op_when_caught_up() {
    let mut t = Transport::new(8);
    let freed = t.reap_completions();
    assert_eq!(freed.len(), 0);
    assert_eq!(t.ack_used_idx, 0);
    let regions = vec![region(0x42, 8, false)];
    t.submit_chain(&regions);
    // submitted but not completed: still nothing to reap
    let freed = t.reap_completions();
    assert_eq!(freed.len(), 0);
    assert_eq!(t.ack_used_idx, 0);
    assert_eq!(t.in_flight.len(), 1);
}

#[test]
fn wraparound_reuses_slot_zero_only_after_reclamation() {
    let mut t = Transport::new(4);
    for i in 0..4u64 {
        let r = t.try_submit_chain(&vec![region(0x1000 + i * 0x100, 8, false)]);
        assert_eq!(r, Some(i as u16));
    }
    // the ring is full: a fifth submission now is a contract violation and
    // is refused
    let refused = t.try_submit_chain(&vec![region(0x2000, 8, false)]);
    assert_eq!(refused, None);
    assert_eq!(t.queue.avail.idx, 4);
    // the first chain completes and is reclaimed
    t.device_complete(0);
    let freed = t.reap_completions();
    assert_eq!(freed, vec![0x1000]);
    // only now may the fifth submission reuse slot 0
    let r = t.try_submit_chain(&vec![region(0x2000, 8, false)]);
    assert_eq!(r, Some(0));
    assert_eq!(t.queue.desc[0].addr, 0x2000);
    assert_eq!(t.queue.avail.ring[0], 0);
    assert_eq!(t.queue.avail.idx, 5);
}

#[test]
fn outstanding_counts_slots_of_chains_in_flight() {
    let mut t = Transport::new(16);
    assert_eq!(t.outstanding(), 0);
    t.submit_chain(&vec![region(0x10, 8, false), region(0x18, 8, true)]);
    assert_eq!(t.outstanding(), 2);
    t.submit_chain(&vec![
        region(0x20, 8, false),
        region(0x28, 8, false),
        region(0x30, 8, true),
    ]);
    assert_eq!(t.outstanding(), 5);
    t.device_complete(0);
    t.reap_completions();
    assert_eq!(t.outstanding(), 3);
}

#[test]
fn free_running_counters_survive_sixteen_bit_wraparound() {
    let mut t = Transport::new(4);
    // drive the free-running indices far past 65536
    for i in 0..70_000u64 {
        let head = t.submit_chain(&vec![region(0x1_0000 + i, 8, false)]);
        assert_eq!(head, (i % 4) as u16);
        t.device_complete(0);
        let freed = t.reap_completions();
        assert_eq!(freed, vec![0x1_0000 + i]);
    }
    assert_eq!(t.queue.avail.idx, (70_000u32 % 65_536) as u16);
    assert_eq!(t.queue.used.idx, (70_000u32 % 65_536) as u16);
    assert_eq!(t.ack_used_idx, t.queue.used.idx);
    assert_eq!(t.in_flight.len(), 0);
}

#[test]
fn completions_are_consumed_in_order() {
    let mut t = Transport::new(8);
    t.submit_chain(&vec![region(0xa000, 8, false), region(0xa008, 8, true)]);
    t.submit_chain(&vec![region(0xb000, 8, false), region(0xb008, 8, true)]);
    t.device_complete(8);
    t.device_complete(8);
    assert_eq!(t.queue.used.idx, 2);
    assert_eq!(t.queue.used.ring[0].id, 0);
    assert_eq!(t.queue.used.ring[1].id, 2);
    let freed = t.reap_completions();
    assert_eq!(freed, vec![0xa000, 0xb000]);
    assert_eq!(t.ack_used_idx, 2);
    assert_eq!(t.in_flight.len(), 0);
}
