use virtgpu::device::{
    fill_rect, handle_interrupt, init, init_slot, pending, refresh, setup_gpu_device, stroke_rect,
    submit_attach_backing, submit_resource_create_2d, Device, DeviceTable, InterruptError,
    DISPLAY_HEIGHT, DISPLAY_WIDTH, FB_BYTES,
};
use virtgpu::gpu::{ctrl_type_code, format_code, Formats, MemEntry, Pixel, Rect};
use virtgpu::handshake::{DeviceRegs, InitError, Reg, RegWrite};
use virtgpu::mem::Kmem;
use virtgpu::ring::{VIRTIO_DESC_F_NEXT, VIRTIO_DESC_F_WRITE};
use virtgpu::syscall::{syscall_block_read, syscall_execv, syscall_sleep};

const HEAP_BASE: u64 = 0x8000_0000;
const QUEUE_PAGE: u32 = 0x4000_0000;

#[test]
fn device_new_is_the_empty_record() {
    let d = Device::new();
    assert_eq!(d.width, 640);
    assert_eq!(d.height, 480);
    assert_eq!(d.transport.idx, 0);
    assert_eq!(d.transport.ack_used_idx, 0);
    assert_eq!(d.framebuffer.len(), 0);
}

#[test]
fn setup_leaves_the_queue_tables_zero_filled() {
    let mut mem = Kmem::new(HEAP_BASE);
    let dev = setup_gpu_device(DeviceRegs::new(0, 128, true), QUEUE_PAGE, &mut mem).unwrap();
    for s in 0..128usize {
        let d = dev.transport.queue.desc[s];
        assert_eq!((d.addr, d.len, d.flags, d.next), (0, 0, 0, 0));
        assert_eq!(dev.transport.queue.avail.ring[s], 0);
        assert_eq!(dev.transport.queue.used.ring[s].id, 0);
        assert_eq!(dev.transport.queue.used.ring[s].len, 0);
    }
}

#[test]
fn init_slot_skips_an_empty_slot_and_runs_a_populated_one() {
    let mut mem = Kmem::new(HEAP_BASE);
    let mut table = DeviceTable::new();
    // an unpopulated slot is a silent no-op
    assert!(init_slot(&mut table, 1, &mut mem).is_none());
    assert_eq!(mem.next, HEAP_BASE);
    // a populated slot runs the full sequence
    let dev = setup_gpu_device(DeviceRegs::new(0, 128, true), QUEUE_PAGE, &mut mem).unwrap();
    table.slots[0] = Some(dev);
    let reqs = init_slot(&mut table, 1, &mut mem).unwrap();
    assert_eq!(ctrl_type_code(reqs.create.request.hdr.ctrl_type), 0x0101);
    match &table.slots[0] {
        Some(d) => {
            assert_eq!(d.transport.in_flight.len(), 5);
            assert_eq!(d.transport.queue.avail.idx, 5);
        }
        None => panic!("slot emptied"),
    }
}

#[test]
fn end_to_end_setup_submit_complete_reclaim() {
    // initialize a device with ring size 128, queue max 128
    let mut mem = Kmem::new(HEAP_BASE);
    let regs = DeviceRegs::new(0, 128, true);
    let mut dev = setup_gpu_device(regs, QUEUE_PAGE, &mut mem).unwrap();
    // handshake succeeded, DriverOk set
    assert_eq!(dev.regs.status, 1 | 2 | 8 | 4);
    assert_eq!(dev.transport.queue.size, 128);
    let fb_base = dev.fb_base;
    assert_eq!(fb_base, HEAP_BASE);

    // ResourceCreate2d: chain of length 2 at slots 0..=1, avail.index 1
    let (h0, rq0) = submit_resource_create_2d(
        &mut dev,
        &mut mem,
        1,
        Formats::R8G8B8A8Unorm,
        640,
        480,
    );
    assert_eq!(h0, 0);
    assert_eq!(rq0.request.resource_id, 1);
    let env0 = HEAP_BASE + FB_BYTES as u64;
    assert_eq!(dev.transport.queue.desc[0].addr, env0);
    assert_eq!(dev.transport.queue.desc[0].len, 40);
    assert_eq!(dev.transport.queue.desc[0].flags, VIRTIO_DESC_F_NEXT);
    assert_eq!(dev.transport.queue.desc[0].next, 1);
    assert_eq!(dev.transport.queue.desc[1].addr, env0 + 40);
    assert_eq!(dev.transport.queue.desc[1].len, 24);
    assert_eq!(dev.transport.queue.desc[1].flags, VIRTIO_DESC_F_WRITE);
    assert_eq!(dev.transport.queue.avail.idx, 1);

    // AttachBacking with one memory entry: chain of length 3 at slots 2..=4,
    // avail.index 2
    let (h1, rq1) = submit_attach_backing(
        &mut dev,
        &mut mem,
        1,
        MemEntry { addr: fb_base, length: FB_BYTES, padding: 0 },
    );
    assert_eq!(h1, 2);
    assert_eq!(rq1.request.nr_entries, 1);
    assert_eq!(rq1.mementries.addr, fb_base);
    let env1 = env0 + 64;
    assert_eq!(dev.transport.queue.desc[2].addr, env1);
    assert_eq!(dev.transport.queue.desc[2].len, 32);
    assert_eq!(dev.transport.queue.desc[2].flags, VIRTIO_DESC_F_NEXT);
    assert_eq!(dev.transport.queue.desc[2].next, 3);
    assert_eq!(dev.transport.queue.desc[3].len, 16);
    assert_eq!(dev.transport.queue.desc[3].flags, VIRTIO_DESC_F_NEXT);
    assert_eq!(dev.transport.queue.desc[3].next, 4);
    assert_eq!(dev.transport.queue.desc[4].len, 24);
    assert_eq!(dev.transport.queue.desc[4].flags, VIRTIO_DESC_F_WRITE);
    assert_eq!(dev.transport.queue.desc[4].next, 0);
    assert_eq!(dev.transport.queue.avail.idx, 2);

    // synthetic completion posted for both, then reclamation frees 2 blocks
    dev.transport.device_complete(24);
    dev.transport.device_complete(24);
    let freed = pending(&mut dev);
    assert_eq!(freed, vec![env0, env1]);
    assert_eq!(dev.transport.ack_used_idx, 2);
}

#[test]
fn init_runs_the_five_step_sequence_and_notifies_once() {
    let mut mem = Kmem::new(HEAP_BASE);
    let regs = DeviceRegs::new(0, 128, true);
    let mut dev = setup_gpu_device(regs, QUEUE_PAGE, &mut mem).unwrap();
    let writes_before = dev.regs.writes.len();
    let reqs = init(&mut dev, &mut mem);
    // the five envelopes carry the fixed command sequence
    assert_eq!(ctrl_type_code(reqs.create.request.hdr.ctrl_type), 0x0101);
    assert_eq!(ctrl_type_code(reqs.backing.request.hdr.ctrl_type), 0x0106);
    assert_eq!(ctrl_type_code(reqs.scanout.request.hdr.ctrl_type), 0x0103);
    assert_eq!(ctrl_type_code(reqs.transfer.request.hdr.ctrl_type), 0x0105);
    assert_eq!(ctrl_type_code(reqs.flush.request.hdr.ctrl_type), 0x0104);
    assert_eq!(reqs.create.request.hdr.flags, 0);
    assert_eq!(reqs.create.request.hdr.fence_id, 0);
    assert_eq!(reqs.create.request.hdr.ctx_id, 0);
    assert_eq!(reqs.create.request.resource_id, 1);
    assert_eq!(format_code(reqs.create.request.format), 67);
    // the memory entry hands the framebuffer's physical extent to the device
    assert_eq!(reqs.backing.request.nr_entries, 1);
    assert_eq!(reqs.backing.mementries.addr, dev.fb_base);
    assert_eq!(reqs.backing.mementries.length, 640 * 480 * 4);
    assert_eq!(reqs.scanout.request.scanout_id, 0);
    assert_eq!(reqs.transfer.request.offset, 0);
    // five chains of 2+3+2+2+2 descriptors
    assert_eq!(dev.transport.in_flight.len(), 5);
    assert_eq!(dev.transport.idx, 11);
    assert_eq!(dev.transport.queue.avail.idx, 5);
    let lens: Vec<u16> = dev.transport.in_flight.iter().map(|r| r.len).collect();
    assert_eq!(lens, vec![2, 3, 2, 2, 2]);
    let heads: Vec<u16> = dev.transport.in_flight.iter().map(|r| r.head).collect();
    assert_eq!(heads, vec![0, 2, 5, 7, 9]);
    // the Available Ring recorded exactly those heads, in submission order
    assert_eq!(&dev.transport.queue.avail.ring[0..5], &[0, 2, 5, 7, 9]);
    // exactly the final descriptor of each chain carries WRITE, with the
    // 24-byte response length
    for (head, len) in [(0u16, 2u16), (2, 3), (5, 2), (7, 2), (9, 2)] {
        for off in 0..len {
            let d = dev.transport.queue.desc[(head + off) as usize];
            if off + 1 < len {
                assert_eq!(d.flags, VIRTIO_DESC_F_NEXT);
                assert_eq!(d.next, head + off + 1);
            } else {
                assert_eq!(d.flags, VIRTIO_DESC_F_WRITE);
                assert_eq!(d.len, 24);
                assert_eq!(d.next, 0);
            }
        }
    }
    // exactly one notification, after the whole sequence
    assert_eq!(dev.regs.writes.len(), writes_before + 1);
    assert_eq!(
        dev.regs.writes[writes_before],
        RegWrite { reg: Reg::QueueNotify, val: 0 }
    );
    // the demo picture: white ground, orange square, stroked black square
    let w = DISPLAY_WIDTH as usize;
    let at = |r: usize, c: usize| dev.framebuffer[r * w + c];
    assert_eq!(at(0, 0), Pixel::new(255, 255, 255, 255));
    assert_eq!(at(100, 100), Pixel::new(255, 130, 0, 255));
    assert_eq!(at(17, 300), Pixel::new(0, 0, 0, 255));
    assert_eq!(at(300, 300), Pixel::new(255, 255, 255, 255));
    // interior of the stroked square stays white
    assert_eq!(at(90, 330), Pixel::new(255, 255, 255, 255));
}

#[test]
fn refresh_repeats_transfer_and_flush_only() {
    let mut mem = Kmem::new(HEAP_BASE);
    let mut dev = setup_gpu_device(DeviceRegs::new(0, 128, true), QUEUE_PAGE, &mut mem).unwrap();
    init(&mut dev, &mut mem);
    let writes_before = dev.regs.writes.len();
    let (transfer, flush) = refresh(&mut dev, &mut mem, Rect::new(0, 0, 640, 480));
    assert_eq!(ctrl_type_code(transfer.request.hdr.ctrl_type), 0x0105);
    assert_eq!(ctrl_type_code(flush.request.hdr.ctrl_type), 0x0104);
    assert_eq!(transfer.request.r.width, 640);
    assert_eq!(flush.request.resource_id, 1);
    // the two heads were recorded after the five of the setup sequence
    assert_eq!(&dev.transport.queue.avail.ring[5..7], &[11, 13]);
    // two more chains of two descriptors each, one more notification
    assert_eq!(dev.transport.in_flight.len(), 7);
    assert_eq!(dev.transport.idx, 15);
    assert_eq!(dev.transport.queue.avail.idx, 7);
    assert_eq!(dev.transport.in_flight[5].len, 2);
    assert_eq!(dev.transport.in_flight[6].len, 2);
    assert_eq!(dev.regs.writes.len(), writes_before + 1);
    assert_eq!(
        dev.regs.writes[writes_before],
        RegWrite { reg: Reg::QueueNotify, val: 0 }
    );
}

#[test]
fn fill_rect_paints_exactly_the_rectangle() {
    let mut mem = Kmem::new(HEAP_BASE);
    let mut dev = setup_gpu_device(DeviceRegs::new(0, 128, true), QUEUE_PAGE, &mut mem).unwrap();
    let red = Pixel::new(255, 0, 0, 255);
    fill_rect(&mut dev, Rect::new(10, 20, 3, 2), red);
    let w = DISPLAY_WIDTH as usize;
    let at = |r: usize, c: usize| dev.framebuffer[r * w + c];
    for r in 20..22 {
        for c in 10..13 {
            assert_eq!(at(r, c), red);
        }
    }
    // just outside every edge the buffer is untouched
    assert_eq!(at(19, 10), Pixel::new(0, 0, 0, 0));
    assert_eq!(at(22, 10), Pixel::new(0, 0, 0, 0));
    assert_eq!(at(20, 9), Pixel::new(0, 0, 0, 0));
    assert_eq!(at(20, 13), Pixel::new(0, 0, 0, 0));
}

#[test]
fn stroke_rect_leaves_the_interior_untouched() {
    let mut mem = Kmem::new(HEAP_BASE);
    let mut dev = setup_gpu_device(DeviceRegs::new(0, 128, true), QUEUE_PAGE, &mut mem).unwrap();
    let black = Pixel::new(0, 0, 0, 255);
    stroke_rect(&mut dev, Rect::new(100, 100, 50, 40), black, 5);
    let w = DISPLAY_WIDTH as usize;
    let at = |r: usize, c: usize| dev.framebuffer[r * w + c];
    // on the four bands
    assert_eq!(at(102, 120), black);
    assert_eq!(at(142, 120), black);
    assert_eq!(at(120, 102), black);
    assert_eq!(at(120, 152), black);
    // inside
    assert_eq!(at(120, 125), Pixel::new(0, 0, 0, 0));
    // outside
    assert_eq!(at(90, 90), Pixel::new(0, 0, 0, 0));
}

#[test]
fn setup_fails_when_the_device_rejects_the_features() {
    let mut mem = Kmem::new(HEAP_BASE);
    let r = setup_gpu_device(DeviceRegs::new(0xff, 128, false), QUEUE_PAGE, &mut mem);
    match r {
        Err((e, regs)) => {
            assert_eq!(e, InitError::FeaturesRejected);
            // the register block still shows what the handshake wrote
            assert_eq!(regs.status, 128);
            assert_eq!(regs.writes.len(), 6);
            assert_eq!(regs.writes[5], RegWrite { reg: Reg::Status, val: 128 });
        }
        Ok(_) => panic!("setup accepted a rejecting device"),
    }
    // no framebuffer was allocated for the failed device
    assert_eq!(mem.next, HEAP_BASE);
}

#[test]
fn setup_fails_when_the_queue_is_too_small() {
    let mut mem = Kmem::new(HEAP_BASE);
    let r = setup_gpu_device(DeviceRegs::new(0, 64, true), QUEUE_PAGE, &mut mem);
    assert!(matches!(r, Err((InitError::RingTooLarge, _))));
}

#[test]
fn interrupt_for_an_empty_slot_is_reported_not_fatal() {
    let mut table = DeviceTable::new();
    assert_eq!(table.slots.len(), 8);
    let r = handle_interrupt(&mut table, 3);
    assert_eq!(r, Err(InterruptError::InvalidDevice));
}

#[test]
fn interrupt_reaps_the_populated_slot() {
    let mut mem = Kmem::new(HEAP_BASE);
    let mut dev = setup_gpu_device(DeviceRegs::new(0, 128, true), QUEUE_PAGE, &mut mem).unwrap();
    let (_, _rq) =
        submit_resource_create_2d(&mut dev, &mut mem, 1, Formats::R8G8B8A8Unorm, 640, 480);
    dev.transport.device_complete(24);
    let mut table = DeviceTable::new();
    table.slots[2] = Some(dev);
    let freed = handle_interrupt(&mut table, 2).unwrap();
    assert_eq!(freed, vec![HEAP_BASE + FB_BYTES as u64]);
    match &table.slots[2] {
        Some(d) => assert_eq!(d.transport.ack_used_idx, 1),
        None => panic!("slot emptied"),
    }
}

#[test]
fn syscall_stubs_accept_and_do_nothing() {
    syscall_execv(b"/bin/pong", 0);
    syscall_sleep(100);
    let mut buf = vec![1u8, 2, 3];
    let r = syscall_block_read(0, &mut buf, 3, 0);
    assert_eq!(r, 0);
    assert_eq!(buf, vec![1, 2, 3]);
}
