//! The per-device driver state and the GPU command protocol run over it.
//!
//! A `Device` owns its register-block model, the transport over its
//! virtqueue, and its framebuffer.  `setup_gpu_device` performs the
//! handshake and allocates the queue and framebuffer; `init` paints the demo
//! picture and runs the one-time five-step command sequence that establishes
//! the display surface; `pending` and `handle_interrupt` drive reclamation
//! from the interrupt path.

use crate::gpu::{
    AttachBacking, CtrlHeader, CtrlType, Formats, MemEntry, Pixel, Rect, Request, Request3,
    ResourceCreate2d, ResourceFlush, SetScanout, TransferToHost2d, ATTACH_BACKING_BYTES,
    CTRL_HEADER_BYTES, MEM_ENTRY_BYTES, RESOURCE_CREATE_2D_BYTES, RESOURCE_FLUSH_BYTES,
    SET_SCANOUT_BYTES, TRANSFER_TO_HOST_2D_BYTES,
};
use crate::handshake::{handshake, DeviceRegs, InitError, Reg, RegWrite};
use crate::mem::Kmem;
use crate::modmath::{
    add_mod, lemma_add_mod_assoc, lemma_add_mod_eval, lemma_wrap16_chain, lemma_wrap16_eval,
    lemma_wrap16_mod, wrap16,
};
use crate::ring::{chain_desc, ChainRegion, Descriptor, UsedElem};
use crate::transport::{
    lemma_submit_preserves_in_flight_slots, lemma_suffix_slots_push, outstanding_slots, InFlight,
    Transport,
};
use crate::VIRTIO_RING_SIZE;
use vstd::pervasive::VecAdditionalExecFns;
use vstd::prelude::*;
use vstd::std_specs::vec::vec_index_mut;

verus! {

/// Width of the display surface, in pixels.
pub const DISPLAY_WIDTH: u32 = 640;

/// Height of the display surface, in pixels.
pub const DISPLAY_HEIGHT: u32 = 480;

/// Bytes per framebuffer pixel.
pub const PIXEL_BYTES: u32 = 4;

/// One discovered GPU device: its register block, the transport over its
/// queue, and the guest framebuffer bound to its display resource.
pub struct Device {
    pub regs: DeviceRegs,
    pub transport: Transport,
    pub framebuffer: Vec<Pixel>,
    pub fb_base: u64,
    pub width: u32,
    pub height: u32,
}

impl Device {
    /// The framebuffer holds one pixel per display position.
    pub open spec fn fb_wf(self) -> bool {
        self.framebuffer@.len() == self.width as int * self.height as int
    }

    /// An empty device record, as the device table holds before bus probe
    /// populates a slot: default display size, no queue traffic, no
    /// framebuffer yet.
    pub fn new() -> (d: Device)
        ensures
            d.transport.wf(),
            d.transport.queue.size == VIRTIO_RING_SIZE,
            d.transport.idx == 0,
            d.transport.ack_used_idx == 0,
            d.transport.in_flight@.len() == 0,
            d.framebuffer@.len() == 0,
            d.fb_base == 0,
            d.width == DISPLAY_WIDTH,
            d.height == DISPLAY_HEIGHT,
    {
        Device {
            regs: DeviceRegs::new(0, 0, true),
            transport: Transport::new(VIRTIO_RING_SIZE),
            framebuffer: Vec::new(),
            fb_base: 0,
            width: DISPLAY_WIDTH,
            height: DISPLAY_HEIGHT,
        }
    }
}

/// Whether the pixel at row `r`, column `c` lies within the rectangle.
pub open spec fn rect_covers(rect: Rect, r: int, c: int) -> bool {
    &&& rect.y <= r < rect.y + rect.height
    &&& rect.x <= c < rect.x + rect.width
}

/// The pixel of a framebuffer of the given width at row `r`, column `c`.
pub open spec fn pixel_at(fb: Seq<Pixel>, width: int, r: int, c: int) -> Pixel {
    fb[r * width + c]
}

/// Distinct display positions live at distinct framebuffer indices.
proof fn lemma_pixel_index_inj(w: int, r1: int, c1: int, r2: int, c2: int)
    requires
        0 < w,
        0 <= c1 < w,
        0 <= c2 < w,
        0 <= r1,
        0 <= r2,
        r1 * w + c1 == r2 * w + c2,
    ensures
        r1 == r2 && c1 == c2,
{
    assert(r1 == r2 && c1 == c2) by (nonlinear_arith)
        requires
            0 < w,
            0 <= c1 < w,
            0 <= c2 < w,
            0 <= r1,
            0 <= r2,
            r1 * w + c1 == r2 * w + c2,
    ;
}

/// A display position indexes within the framebuffer.
proof fn lemma_pixel_index_bound(w: int, h: int, r: int, c: int)
    requires
        0 <= r < h,
        0 <= c < w,
    ensures
        0 <= r * w + c < w * h,
{
    assert(0 <= r * w + c < w * h) by (nonlinear_arith)
        requires
            0 <= r < h,
            0 <= c < w,
    ;
}

/// Writes `color` into every pixel of `rect`; every pixel outside `rect` is
/// untouched.  The rectangle must lie within the display.
pub fn fill_rect(dev: &mut Device, rect: Rect, color: Pixel)
    requires
        old(dev).fb_wf(),
        rect.x + rect.width <= old(dev).width,
        rect.y + rect.height <= old(dev).height,
    ensures
        final(dev).fb_wf(),
        final(dev).width == old(dev).width,
        final(dev).height == old(dev).height,
        final(dev).regs == old(dev).regs,
        final(dev).transport == old(dev).transport,
        final(dev).fb_base == old(dev).fb_base,
        forall|r: int, c: int|
            0 <= r < old(dev).height as int && 0 <= c < old(dev).width as int
                ==> #[trigger] pixel_at(final(dev).framebuffer@, old(dev).width as int, r, c)
                == if rect_covers(rect, r, c) {
                color
            } else {
                pixel_at(old(dev).framebuffer@, old(dev).width as int, r, c)
            },
{
    let ghost pre = *old(dev);
    let ghost w = pre.width as int;
    let ghost h = pre.height as int;
    let mut row = rect.y;
    while row < rect.y + rect.height
        invariant
            pre.fb_wf(),
            w == pre.width as int,
            h == pre.height as int,
            rect.x + rect.width <= pre.width,
            rect.y + rect.height <= pre.height,
            rect.y <= row <= rect.y + rect.height,
            dev.width == pre.width,
            dev.height == pre.height,
            dev.regs == pre.regs,
            dev.transport == pre.transport,
            dev.fb_base == pre.fb_base,
            dev.framebuffer@.len() == pre.framebuffer@.len(),
            forall|r: int, c: int|
                0 <= r < h && 0 <= c < w ==> #[trigger] pixel_at(dev.framebuffer@, w, r, c)
                    == if rect_covers(rect, r, c) && r < row as int {
                    color
                } else {
                    pixel_at(pre.framebuffer@, w, r, c)
                },
        decreases rect.y as int + rect.height as int - row as int,
    {
        let mut col = rect.x;
        while col < rect.x + rect.width
            invariant
                pre.fb_wf(),
                w == pre.width as int,
                h == pre.height as int,
                rect.x + rect.width <= pre.width,
                rect.y + rect.height <= pre.height,
                rect.y <= row < rect.y + rect.height,
                rect.x <= col <= rect.x + rect.width,
                dev.width == pre.width,
                dev.height == pre.height,
                dev.regs == pre.regs,
                dev.transport == pre.transport,
                dev.fb_base == pre.fb_base,
                dev.framebuffer@.len() == pre.framebuffer@.len(),
                forall|r: int, c: int|
                    0 <= r < h && 0 <= c < w ==> #[trigger] pixel_at(dev.framebuffer@, w, r, c)
                        == if rect_covers(rect, r, c) && (r < row as int || (r == row as int && c
                        < col as int)) {
                        color
                    } else {
                        pixel_at(pre.framebuffer@, w, r, c)
                    },
            decreases rect.x as int + rect.width as int - col as int,
        {
            let ghost fb_before = dev.framebuffer@;
            let fblen = dev.framebuffer.len();
            proof {
                lemma_pixel_index_bound(w, h, row as int, col as int);
                assert(fblen as int == w * h);
            }
            let byte = row as usize * dev.width as usize + col as usize;
            dev.framebuffer.set(byte, color);
            proof {
                assert forall|r: int, c: int|
                    0 <= r < h && 0 <= c < w implies #[trigger] pixel_at(
                    dev.framebuffer@,
                    w,
                    r,
                    c,
                ) == if rect_covers(rect, r, c) && (r < row as int || (r == row as int && c < col
                    as int + 1)) {
                    color
                } else {
                    pixel_at(pre.framebuffer@, w, r, c)
                } by {
                    lemma_pixel_index_bound(w, h, r, c);
                    assert(pixel_at(fb_before, w, r, c) == (if rect_covers(rect, r, c) && (r
                        < row as int || (r == row as int && c < col as int)) {
                        color
                    } else {
                        pixel_at(pre.framebuffer@, w, r, c)
                    }));
                    assert(dev.framebuffer@ == fb_before.update(byte as int, color));
                    if r * w + c == row as int * w + col as int {
                        lemma_pixel_index_inj(w, r, c, row as int, col as int);
                    }
                }
            }
            col = col + 1;
        }
        row = row + 1;
    }
}

/// Bytes of the framebuffer that backs the whole display.
pub const FB_BYTES: u32 = DISPLAY_WIDTH * DISPLAY_HEIGHT * PIXEL_BYTES;

/// Performs first-time setup of a discovered device: runs the handshake with
/// the driver's fixed ring size, and on success allocates the zero-filled
/// queue and the framebuffer and assembles the live device.  Failure is
/// fatal for this device instance: it is reported, not retried, and its slot
/// is left unpopulated; the register block comes back with the error, still
/// showing what the handshake wrote — `Failed` after a feature rejection.
pub fn setup_gpu_device(regs: DeviceRegs, queue_addr: u32, mem: &mut Kmem) -> (r: Result<
    Device,
    (InitError, DeviceRegs),
>)
    requires
        queue_addr % crate::handshake::PAGE_SIZE == 0,
        old(mem).next + FB_BYTES <= u64::MAX,
    ensures
        r is Ok <==> regs.accepts_features && VIRTIO_RING_SIZE as u32 <= regs.queue_num_max,
        r is Err ==> *final(mem) == *old(mem),
        r matches Err(e) ==> {
            &&& (e.0 == InitError::FeaturesRejected <==> !regs.accepts_features)
            &&& (e.0 == InitError::RingTooLarge <==> regs.accepts_features
                && VIRTIO_RING_SIZE as u32 > regs.queue_num_max)
            &&& e.1.host_features == regs.host_features
            &&& e.1.queue_num_max == regs.queue_num_max
            &&& e.1.accepts_features == regs.accepts_features
            &&& e.1.guest_features == crate::handshake::spec_negotiate_features(
                regs.host_features,
            )
            &&& (!regs.accepts_features ==> e.1.status == crate::handshake::STATUS_FAILED
                && e.1.writes@ == regs.writes@ + crate::handshake::rejected_writes(
                regs.host_features,
            ))
            &&& (e.0 == InitError::RingTooLarge ==> e.1.writes@ == regs.writes@
                + crate::handshake::capacity_failed_writes(regs.host_features))
        },
        r matches Ok(d) ==> {
            &&& d.transport.wf()
            &&& d.transport.queue.size == VIRTIO_RING_SIZE
            &&& d.transport.idx == 0
            &&& d.transport.ack_used_idx == 0
            &&& d.transport.in_flight@.len() == 0
            &&& d.transport.queue.avail.idx == 0
            &&& d.transport.queue.used.idx == 0
            &&& d.width == DISPLAY_WIDTH
            &&& d.height == DISPLAY_HEIGHT
            &&& d.fb_wf()
            &&& (forall|p: int|
                0 <= p < d.framebuffer@.len() ==> d.framebuffer@[p] == (Pixel {
                    r: 0,
                    g: 0,
                    b: 0,
                    a: 0,
                }))
            &&& d.fb_base == old(mem).next
            &&& final(mem).next == old(mem).next + FB_BYTES
            &&& d.regs.status == (crate::handshake::STATUS_ACKNOWLEDGE
                | crate::handshake::STATUS_DRIVER | crate::handshake::STATUS_FEATURES_OK
                | crate::handshake::STATUS_DRIVER_OK)
            &&& d.regs.guest_features == crate::handshake::spec_negotiate_features(
                regs.host_features,
            )
            &&& d.regs.host_features == regs.host_features
            &&& d.regs.queue_sel == 0
            &&& d.regs.queue_num == VIRTIO_RING_SIZE as u32
            &&& d.regs.guest_page_size == crate::handshake::PAGE_SIZE
            &&& d.regs.queue_pfn == queue_addr / crate::handshake::PAGE_SIZE
            &&& d.regs.writes@ == regs.writes@ + crate::handshake::accepted_writes(
                regs.host_features,
                VIRTIO_RING_SIZE as u32,
                queue_addr,
            )
            // the queue's tables come from zero-filled, page-aligned memory
            &&& (forall|s: int|
                0 <= s < VIRTIO_RING_SIZE as int ==> d.transport.queue.desc@[s] == (Descriptor {
                    addr: 0,
                    len: 0,
                    flags: 0,
                    next: 0,
                }))
            &&& (forall|s: int|
                0 <= s < VIRTIO_RING_SIZE as int ==> d.transport.queue.avail.ring@[s] == 0u16)
            &&& (forall|s: int|
                0 <= s < VIRTIO_RING_SIZE as int ==> d.transport.queue.used.ring@[s] == (UsedElem {
                    id: 0,
                    len: 0,
                }))
        },
{
    let mut regs = regs;
    match handshake(&mut regs, VIRTIO_RING_SIZE as u32, queue_addr) {
        Ok(()) => {
            let fb_base = mem.kmalloc(FB_BYTES);
            let mut framebuffer: Vec<Pixel> = Vec::new();
            let total = (DISPLAY_WIDTH * DISPLAY_HEIGHT) as usize;
            let mut i: usize = 0;
            while i < total
                invariant
                    total == DISPLAY_WIDTH as int * DISPLAY_HEIGHT as int,
                    i <= total,
                    framebuffer@.len() == i as int,
                    forall|p: int|
                        0 <= p < i as int ==> framebuffer@[p] == (Pixel {
                            r: 0,
                            g: 0,
                            b: 0,
                            a: 0,
                        }),
                decreases total as int - i as int,
            {
                framebuffer.push(Pixel { r: 0, g: 0, b: 0, a: 0 });
                i = i + 1;
            }
            Ok(
                Device {
                    regs,
                    transport: Transport::new(VIRTIO_RING_SIZE),
                    framebuffer,
                    fb_base,
                    width: DISPLAY_WIDTH,
                    height: DISPLAY_HEIGHT,
                },
            )
        },
        Err(e) => Err((e, regs)),
    }
}

/// Whether the pixel at row `r`, column `c` lies on the stroked border of
/// `rect` with the given stroke thickness: the top, bottom, left or right
/// band, laid out exactly as the four fills of `stroke_rect` put them.
pub open spec fn stroke_covers(rect: Rect, size: u32, r: int, c: int) -> bool {
    let x = rect.x as int;
    let y = rect.y as int;
    let w = rect.width as int;
    let h = rect.height as int;
    let s = size as int;
    ||| (y <= r < y + s && x <= c < x + w)  // top
    ||| (y + h <= r < y + h + s && x <= c < x + w)  // bottom
    ||| (y <= r < y + h && x <= c < x + s)  // left
    ||| (y <= r < y + h + s && x + w <= c < x + w + s)  // right
}

/// Strokes the four sides of `rect` with bands `size` pixels thick, leaving
/// the interior and everything else untouched.  The rectangle together with
/// its right and bottom bands must lie within the display.
pub fn stroke_rect(dev: &mut Device, rect: Rect, color: Pixel, size: u32)
    requires
        old(dev).fb_wf(),
        rect.x + rect.width + size <= old(dev).width,
        rect.y + rect.height + size <= old(dev).height,
    ensures
        final(dev).fb_wf(),
        final(dev).width == old(dev).width,
        final(dev).height == old(dev).height,
        final(dev).regs == old(dev).regs,
        final(dev).transport == old(dev).transport,
        final(dev).fb_base == old(dev).fb_base,
        forall|r: int, c: int|
            0 <= r < old(dev).height as int && 0 <= c < old(dev).width as int
                ==> #[trigger] pixel_at(final(dev).framebuffer@, old(dev).width as int, r, c)
                == if stroke_covers(rect, size, r, c) {
                color
            } else {
                pixel_at(old(dev).framebuffer@, old(dev).width as int, r, c)
            },
{
    // Essentially stroke the four sides.
    // Top
    fill_rect(dev, Rect::new(rect.x, rect.y, rect.width, size), color);
    // Bottom
    fill_rect(dev, Rect::new(rect.x, rect.y + rect.height, rect.width, size), color);
    // Left
    fill_rect(dev, Rect::new(rect.x, rect.y, size, rect.height), color);
    // Right
    fill_rect(dev, Rect::new(rect.x + rect.width, rect.y, size, rect.height + size), color);
}

/// The two regions of a two-part command chain over the envelope at `base`:
/// the request payload, which the device only reads, then the response
/// header, which the device writes.
pub open spec fn two_part_regions(base: u64, req_bytes: u32) -> Seq<ChainRegion> {
    seq![
        ChainRegion { addr: base, len: req_bytes, device_writes: false },
        ChainRegion {
            addr: (base + req_bytes) as u64,
            len: CTRL_HEADER_BYTES,
            device_writes: true,
        },
    ]
}

/// The three regions of a three-part command chain over the envelope at
/// `base`: the request payload, the inline memory-entry segment, then the
/// response header.
pub open spec fn three_part_regions(base: u64, req_bytes: u32, mid_bytes: u32) -> Seq<
    ChainRegion,
> {
    seq![
        ChainRegion { addr: base, len: req_bytes, device_writes: false },
        ChainRegion { addr: (base + req_bytes) as u64, len: mid_bytes, device_writes: false },
        ChainRegion {
            addr: (base + req_bytes + mid_bytes) as u64,
            len: CTRL_HEADER_BYTES,
            device_writes: true,
        },
    ]
}

/// Declares the host-side drawable resource: allocates the request envelope,
/// writes the `ResourceCreate2d` payload at its head, and submits the
/// two-part chain.  Returns the chain's head slot and the envelope's
/// contents.
pub fn submit_resource_create_2d(
    dev: &mut Device,
    mem: &mut Kmem,
    resource_id: u32,
    format: Formats,
    width: u32,
    height: u32,
) -> (r: (u16, Request<ResourceCreate2d, CtrlHeader>))
    requires
        old(dev).transport.wf(),
        outstanding_slots(old(dev).transport.in_flight@) + 2 <= old(
            dev,
        ).transport.queue.size as int,
        old(mem).next + 64 <= u64::MAX,
    ensures
        final(dev).transport.wf(),
        Transport::submit_rel(
            old(dev).transport,
            two_part_regions(old(mem).next, RESOURCE_CREATE_2D_BYTES),
            final(dev).transport,
            r.0,
        ),
        r.1.request == (ResourceCreate2d {
            hdr: crate::gpu::spec_command_header(CtrlType::CmdResourceCreate2d),
            resource_id,
            format,
            width,
            height,
        }),
        r.1.response == crate::gpu::spec_response_placeholder(),
        final(mem).next == old(mem).next + 64,
        final(dev).regs == old(dev).regs,
        final(dev).framebuffer == old(dev).framebuffer,
        final(dev).fb_base == old(dev).fb_base,
        final(dev).width == old(dev).width,
        final(dev).height == old(dev).height,
{
    let base = mem.kmalloc(RESOURCE_CREATE_2D_BYTES + CTRL_HEADER_BYTES);
    let rq = Request::new(
        ResourceCreate2d {
            hdr: CtrlHeader {
                ctrl_type: CtrlType::CmdResourceCreate2d,
                flags: 0,
                fence_id: 0,
                ctx_id: 0,
                padding: 0,
            },
            resource_id,
            format,
            width,
            height,
        },
        CtrlHeader {
            ctrl_type: CtrlType::RespOkNoData,
            flags: 0,
            fence_id: 0,
            ctx_id: 0,
            padding: 0,
        },
    );
    let mut regions: Vec<ChainRegion> = Vec::new();
    regions.push(ChainRegion { addr: base, len: RESOURCE_CREATE_2D_BYTES, device_writes: false });
    regions.push(
        ChainRegion {
            addr: base + RESOURCE_CREATE_2D_BYTES as u64,
            len: CTRL_HEADER_BYTES,
            device_writes: true,
        },
    );
    proof {
        assert(regions@ =~= two_part_regions(old(mem).next, RESOURCE_CREATE_2D_BYTES));
    }
    let head = dev.transport.submit_chain(&regions);
    (head, rq)
}

/// Binds the framebuffer region to the resource as its pixel storage:
/// allocates the envelope holding the `AttachBacking` payload, one inline
/// memory-entry record, and the response header, and submits the three-part
/// chain.  After this command, driver writes into the framebuffer become
/// visible to the device only after a subsequent transfer.
pub fn submit_attach_backing(
    dev: &mut Device,
    mem: &mut Kmem,
    resource_id: u32,
    entry: MemEntry,
) -> (r: (u16, Request3<AttachBacking, MemEntry, CtrlHeader>))
    requires
        old(dev).transport.wf(),
        outstanding_slots(old(dev).transport.in_flight@) + 3 <= old(
            dev,
        ).transport.queue.size as int,
        old(mem).next + 72 <= u64::MAX,
    ensures
        final(dev).transport.wf(),
        Transport::submit_rel(
            old(dev).transport,
            three_part_regions(old(mem).next, ATTACH_BACKING_BYTES, MEM_ENTRY_BYTES),
            final(dev).transport,
            r.0,
        ),
        r.1.request == (AttachBacking {
            hdr: crate::gpu::spec_command_header(CtrlType::CmdResourceAttachBacking),
            resource_id,
            nr_entries: 1,
        }),
        r.1.mementries == entry,
        r.1.response == crate::gpu::spec_response_placeholder(),
        final(mem).next == old(mem).next + 72,
        final(dev).regs == old(dev).regs,
        final(dev).framebuffer == old(dev).framebuffer,
        final(dev).fb_base == old(dev).fb_base,
        final(dev).width == old(dev).width,
        final(dev).height == old(dev).height,
{
    let base = mem.kmalloc(ATTACH_BACKING_BYTES + MEM_ENTRY_BYTES + CTRL_HEADER_BYTES);
    let rq = Request3::new(
        AttachBacking {
            hdr: CtrlHeader {
                ctrl_type: CtrlType::CmdResourceAttachBacking,
                flags: 0,
                fence_id: 0,
                ctx_id: 0,
                padding: 0,
            },
            resource_id,
            nr_entries: 1,
        },
        entry,
        CtrlHeader {
            ctrl_type: CtrlType::RespOkNoData,
            flags: 0,
            fence_id: 0,
            ctx_id: 0,
            padding: 0,
        },
    );
    let mut regions: Vec<ChainRegion> = Vec::new();
    regions.push(ChainRegion { addr: base, len: ATTACH_BACKING_BYTES, device_writes: false });
    regions.push(
        ChainRegion {
            addr: base + ATTACH_BACKING_BYTES as u64,
            len: MEM_ENTRY_BYTES,
            device_writes: false,
        },
    );
    regions.push(
        ChainRegion {
            addr: base + (ATTACH_BACKING_BYTES + MEM_ENTRY_BYTES) as u64,
            len: CTRL_HEADER_BYTES,
            device_writes: true,
        },
    );
    proof {
        assert(regions@ =~= three_part_regions(
            old(mem).next,
            ATTACH_BACKING_BYTES,
            MEM_ENTRY_BYTES,
        ));
    }
    let head = dev.transport.submit_chain(&regions);
    (head, rq)
}

/// Assigns the resource to a scanout covering the given rectangle, as a
/// two-part chain.
pub fn submit_set_scanout(
    dev: &mut Device,
    mem: &mut Kmem,
    r_rect: Rect,
    scanout_id: u32,
    resource_id: u32,
) -> (r: (u16, Request<SetScanout, CtrlHeader>))
    requires
        old(dev).transport.wf(),
        outstanding_slots(old(dev).transport.in_flight@) + 2 <= old(
            dev,
        ).transport.queue.size as int,
        old(mem).next + 72 <= u64::MAX,
    ensures
        final(dev).transport.wf(),
        Transport::submit_rel(
            old(dev).transport,
            two_part_regions(old(mem).next, SET_SCANOUT_BYTES),
            final(dev).transport,
            r.0,
        ),
        r.1.request == (SetScanout {
            hdr: crate::gpu::spec_command_header(CtrlType::CmdSetScanout),
            r: r_rect,
            scanout_id,
            resource_id,
        }),
        r.1.response == crate::gpu::spec_response_placeholder(),
        final(mem).next == old(mem).next + 72,
        final(dev).regs == old(dev).regs,
        final(dev).framebuffer == old(dev).framebuffer,
        final(dev).fb_base == old(dev).fb_base,
        final(dev).width == old(dev).width,
        final(dev).height == old(dev).height,
{
    let base = mem.kmalloc(SET_SCANOUT_BYTES + CTRL_HEADER_BYTES);
    let rq = Request::new(
        SetScanout {
            hdr: CtrlHeader {
                ctrl_type: CtrlType::CmdSetScanout,
                flags: 0,
                fence_id: 0,
                ctx_id: 0,
                padding: 0,
            },
            r: r_rect,
            scanout_id,
            resource_id,
        },
        CtrlHeader {
            ctrl_type: CtrlType::RespOkNoData,
            flags: 0,
            fence_id: 0,
            ctx_id: 0,
            padding: 0,
        },
    );
    let mut regions: Vec<ChainRegion> = Vec::new();
    regions.push(ChainRegion { addr: base, len: SET_SCANOUT_BYTES, device_writes: false });
    regions.push(
        ChainRegion {
            addr: base + SET_SCANOUT_BYTES as u64,
            len: CTRL_HEADER_BYTES,
            device_writes: true,
        },
    );
    proof {
        assert(regions@ =~= two_part_regions(old(mem).next, SET_SCANOUT_BYTES));
    }
    let head = dev.transport.submit_chain(&regions);
    (head, rq)
}

/// Copies the rectangle of guest-backed pixel data into the resource's
/// host-visible representation, as a two-part chain.  Must be issued after
/// any pixel-buffer mutation and before a flush for the changes to appear.
pub fn submit_transfer_to_host_2d(
    dev: &mut Device,
    mem: &mut Kmem,
    r_rect: Rect,
    offset: u64,
    resource_id: u32,
) -> (r: (u16, Request<TransferToHost2d, CtrlHeader>))
    requires
        old(dev).transport.wf(),
        outstanding_slots(old(dev).transport.in_flight@) + 2 <= old(
            dev,
        ).transport.queue.size as int,
        old(mem).next + 80 <= u64::MAX,
    ensures
        final(dev).transport.wf(),
        Transport::submit_rel(
            old(dev).transport,
            two_part_regions(old(mem).next, TRANSFER_TO_HOST_2D_BYTES),
            final(dev).transport,
            r.0,
        ),
        r.1.request == (TransferToHost2d {
            hdr: crate::gpu::spec_command_header(CtrlType::CmdTransferToHost2d),
            r: r_rect,
            offset,
            resource_id,
            padding: 0,
        }),
        r.1.response == crate::gpu::spec_response_placeholder(),
        final(mem).next == old(mem).next + 80,
        final(dev).regs == old(dev).regs,
        final(dev).framebuffer == old(dev).framebuffer,
        final(dev).fb_base == old(dev).fb_base,
        final(dev).width == old(dev).width,
        final(dev).height == old(dev).height,
{
    let base = mem.kmalloc(TRANSFER_TO_HOST_2D_BYTES + CTRL_HEADER_BYTES);
    let rq = Request::new(
        TransferToHost2d {
            hdr: CtrlHeader {
                ctrl_type: CtrlType::CmdTransferToHost2d,
                flags: 0,
                fence_id: 0,
                ctx_id: 0,
                padding: 0,
            },
            r: r_rect,
            offset,
            resource_id,
            padding: 0,
        },
        CtrlHeader {
            ctrl_type: CtrlType::RespOkNoData,
            flags: 0,
            fence_id: 0,
            ctx_id: 0,
            padding: 0,
        },
    );
    let mut regions: Vec<ChainRegion> = Vec::new();
    regions.push(
        ChainRegion { addr: base, len: TRANSFER_TO_HOST_2D_BYTES, device_writes: false },
    );
    regions.push(
        ChainRegion {
            addr: base + TRANSFER_TO_HOST_2D_BYTES as u64,
            len: CTRL_HEADER_BYTES,
            device_writes: true,
        },
    );
    proof {
        assert(regions@ =~= two_part_regions(old(mem).next, TRANSFER_TO_HOST_2D_BYTES));
    }
    let head = dev.transport.submit_chain(&regions);
    (head, rq)
}

/// Presents the already-transferred resource region on the scanout, as a
/// two-part chain.
pub fn submit_resource_flush(
    dev: &mut Device,
    mem: &mut Kmem,
    r_rect: Rect,
    resource_id: u32,
) -> (r: (u16, Request<ResourceFlush, CtrlHeader>))
    requires
        old(dev).transport.wf(),
        outstanding_slots(old(dev).transport.in_flight@) + 2 <= old(
            dev,
        ).transport.queue.size as int,
        old(mem).next + 72 <= u64::MAX,
    ensures
        final(dev).transport.wf(),
        Transport::submit_rel(
            old(dev).transport,
            two_part_regions(old(mem).next, RESOURCE_FLUSH_BYTES),
            final(dev).transport,
            r.0,
        ),
        r.1.request == (ResourceFlush {
            hdr: crate::gpu::spec_command_header(CtrlType::CmdResourceFlush),
            r: r_rect,
            resource_id,
            padding: 0,
        }),
        r.1.response == crate::gpu::spec_response_placeholder(),
        final(mem).next == old(mem).next + 72,
        final(dev).regs == old(dev).regs,
        final(dev).framebuffer == old(dev).framebuffer,
        final(dev).fb_base == old(dev).fb_base,
        final(dev).width == old(dev).width,
        final(dev).height == old(dev).height,
{
    let base = mem.kmalloc(RESOURCE_FLUSH_BYTES + CTRL_HEADER_BYTES);
    let rq = Request::new(
        ResourceFlush {
            hdr: CtrlHeader {
                ctrl_type: CtrlType::CmdResourceFlush,
                flags: 0,
                fence_id: 0,
                ctx_id: 0,
                padding: 0,
            },
            r: r_rect,
            resource_id,
            padding: 0,
        },
        CtrlHeader {
            ctrl_type: CtrlType::RespOkNoData,
            flags: 0,
            fence_id: 0,
            ctx_id: 0,
            padding: 0,
        },
    );
    let mut regions: Vec<ChainRegion> = Vec::new();
    regions.push(ChainRegion { addr: base, len: RESOURCE_FLUSH_BYTES, device_writes: false });
    regions.push(
        ChainRegion {
            addr: base + RESOURCE_FLUSH_BYTES as u64,
            len: CTRL_HEADER_BYTES,
            device_writes: true,
        },
    );
    proof {
        assert(regions@ =~= two_part_regions(old(mem).next, RESOURCE_FLUSH_BYTES));
    }
    let head = dev.transport.submit_chain(&regions);
    (head, rq)
}

/// The picture `init` paints: a stroked black square over an orange square
/// on a white background.
pub open spec fn demo_pixel(r: int, c: int) -> Pixel {
    if stroke_covers(Rect { x: 255, y: 15, width: 150, height: 150 }, 5, r, c) {
        Pixel { r: 0, g: 0, b: 0, a: 255 }
    } else if rect_covers(Rect { x: 15, y: 15, width: 200, height: 200 }, r, c) {
        Pixel { r: 255, g: 130, b: 0, a: 255 }
    } else {
        Pixel { r: 255, g: 255, b: 255, a: 255 }
    }
}

/// The per-chain shape of the five-step sequence: the cursor offset at
/// which the `j`-th chain starts (j in 0..5).
pub open spec fn init_chain_offset(j: int) -> int {
    if j == 0 {
        0
    } else if j == 1 {
        2
    } else if j == 2 {
        5
    } else if j == 3 {
        7
    } else {
        9
    }
}

/// The number of descriptors of the `j`-th chain of the five-step sequence:
/// the attach-backing chain has three parts, every other chain two.
pub open spec fn init_chain_len(j: int) -> int {
    if j == 1 {
        3
    } else {
        2
    }
}

/// The descriptor-table slot at which the `j`-th chain of the five-step
/// sequence starts, given the cursor before `init`.
pub open spec fn init_chain_head(idx0: int, j: int, n: int) -> int {
    add_mod(idx0, init_chain_offset(j), n)
}

/// The address of the `j`-th request envelope of the five-step sequence,
/// given the allocator cursor before `init`.
pub open spec fn init_envelope_base(base: u64, j: int) -> u64 {
    if j == 0 {
        base
    } else if j == 1 {
        (base + 64) as u64
    } else if j == 2 {
        (base + 136) as u64
    } else if j == 3 {
        (base + 208) as u64
    } else {
        (base + 288) as u64
    }
}

/// The memory regions of the `j`-th chain of the five-step sequence.
pub open spec fn init_chain_regions(base: u64, j: int) -> Seq<ChainRegion> {
    if j == 0 {
        two_part_regions(init_envelope_base(base, 0), RESOURCE_CREATE_2D_BYTES)
    } else if j == 1 {
        three_part_regions(init_envelope_base(base, 1), ATTACH_BACKING_BYTES, MEM_ENTRY_BYTES)
    } else if j == 2 {
        two_part_regions(init_envelope_base(base, 2), SET_SCANOUT_BYTES)
    } else if j == 3 {
        two_part_regions(init_envelope_base(base, 3), TRANSFER_TO_HOST_2D_BYTES)
    } else {
        two_part_regions(init_envelope_base(base, 4), RESOURCE_FLUSH_BYTES)
    }
}

/// The full display rectangle the one-time sequence configures.
pub open spec fn full_display_rect() -> Rect {
    Rect { x: 0, y: 0, width: DISPLAY_WIDTH, height: DISPLAY_HEIGHT }
}

/// The five request envelopes built by one run of the display-setup
/// sequence, in submission order.  Their blocks stay resident until the
/// reclaimer frees them; these are the driver-side copies of what was
/// written into those blocks.
pub struct InitRequests {
    pub create: Request<ResourceCreate2d, CtrlHeader>,
    pub backing: Request3<AttachBacking, MemEntry, CtrlHeader>,
    pub scanout: Request<SetScanout, CtrlHeader>,
    pub transfer: Request<TransferToHost2d, CtrlHeader>,
    pub flush: Request<ResourceFlush, CtrlHeader>,
}

/// What one run of `init` does, for a device whose allocator cursor stood at
/// `base`: the framebuffer holds the demo picture; the five chains stand in
/// the descriptor table in successive slots from the old cursor, shaped as
/// `chain_desc` dictates; the Available Ring records the five head slots at
/// positions `avail.idx + j (mod size)` in submission order and its index
/// advances by five; the five chains are in flight with their envelope
/// addresses; the envelopes carry the fixed command sequence; one
/// QueueNotify write is logged and nothing else on the device changes.
pub open spec fn init_rel(pre: Device, base: u64, post: Device, reqs: InitRequests) -> bool {
    let n = pre.transport.queue.size as int;
    let idx0 = pre.transport.idx as int;
    let a0 = pre.transport.queue.avail.idx as int;
    // display and framebuffer
    &&& post.width == pre.width
    &&& post.height == pre.height
    &&& post.fb_base == pre.fb_base
    &&& post.fb_wf()
    &&& (forall|r: int, c: int|
        0 <= r < DISPLAY_HEIGHT as int && 0 <= c < DISPLAY_WIDTH as int ==> #[trigger] pixel_at(
            post.framebuffer@,
            DISPLAY_WIDTH as int,
            r,
            c,
        ) == demo_pixel(r, c))
    // registers: one notification, nothing else
    &&& post.regs.writes@ == pre.regs.writes@.push(RegWrite { reg: Reg::QueueNotify, val: 0 })
    &&& post.regs.status == pre.regs.status
    &&& post.regs.host_features == pre.regs.host_features
    &&& post.regs.guest_features == pre.regs.guest_features
    &&& post.regs.queue_sel == pre.regs.queue_sel
    &&& post.regs.queue_num == pre.regs.queue_num
    &&& post.regs.queue_pfn == pre.regs.queue_pfn
    &&& post.regs.guest_page_size == pre.regs.guest_page_size
    // transport: cursor and Available index advance
    &&& post.transport.queue.size == pre.transport.queue.size
    &&& post.transport.idx as int == add_mod(idx0, 11, n)
    &&& post.transport.queue.avail.idx as int == wrap16(a0 + 5)
    &&& post.transport.queue.avail.flags == pre.transport.queue.avail.flags
    &&& post.transport.queue.used == pre.transport.queue.used
    &&& post.transport.ack_used_idx == pre.transport.ack_used_idx
    // the descriptor table holds the five chains
    &&& forall|j: int, i: int|
        0 <= j < 5 && 0 <= i < init_chain_len(j) ==> post.transport.queue.desc@[#[trigger] add_mod(
            init_chain_head(idx0, j, n),
            i,
            n,
        )] == chain_desc(init_chain_regions(base, j), i, init_chain_head(idx0, j, n), n)
    // the Available Ring records the five heads, in submission order
    &&& post.transport.queue.avail.ring@ == pre.transport.queue.avail.ring@.update(
        add_mod(a0, 0, n),
        init_chain_head(idx0, 0, n) as u16,
    ).update(add_mod(a0, 1, n), init_chain_head(idx0, 1, n) as u16).update(
        add_mod(a0, 2, n),
        init_chain_head(idx0, 2, n) as u16,
    ).update(add_mod(a0, 3, n), init_chain_head(idx0, 3, n) as u16).update(
        add_mod(a0, 4, n),
        init_chain_head(idx0, 4, n) as u16,
    )
    // ownership of the five request blocks passed to the transport
    &&& post.transport.in_flight@ == pre.transport.in_flight@.push(
        InFlight {
            head: init_chain_head(idx0, 0, n) as u16,
            len: 2,
            addr: init_envelope_base(base, 0),
        },
    ).push(
        InFlight {
            head: init_chain_head(idx0, 1, n) as u16,
            len: 3,
            addr: init_envelope_base(base, 1),
        },
    ).push(
        InFlight {
            head: init_chain_head(idx0, 2, n) as u16,
            len: 2,
            addr: init_envelope_base(base, 2),
        },
    ).push(
        InFlight {
            head: init_chain_head(idx0, 3, n) as u16,
            len: 2,
            addr: init_envelope_base(base, 3),
        },
    ).push(
        InFlight {
            head: init_chain_head(idx0, 4, n) as u16,
            len: 2,
            addr: init_envelope_base(base, 4),
        },
    )
    // the envelopes carry the fixed command sequence
    &&& reqs.create.request == (ResourceCreate2d {
        hdr: crate::gpu::spec_command_header(CtrlType::CmdResourceCreate2d),
        resource_id: 1,
        format: Formats::R8G8B8A8Unorm,
        width: DISPLAY_WIDTH,
        height: DISPLAY_HEIGHT,
    })
    &&& reqs.create.response == crate::gpu::spec_response_placeholder()
    &&& reqs.backing.request == (AttachBacking {
        hdr: crate::gpu::spec_command_header(CtrlType::CmdResourceAttachBacking),
        resource_id: 1,
        nr_entries: 1,
    })
    &&& reqs.backing.mementries == (MemEntry { addr: pre.fb_base, length: FB_BYTES, padding: 0 })
    &&& reqs.backing.response == crate::gpu::spec_response_placeholder()
    &&& reqs.scanout.request == (SetScanout {
        hdr: crate::gpu::spec_command_header(CtrlType::CmdSetScanout),
        r: full_display_rect(),
        scanout_id: 0,
        resource_id: 1,
    })
    &&& reqs.scanout.response == crate::gpu::spec_response_placeholder()
    &&& reqs.transfer.request == (TransferToHost2d {
        hdr: crate::gpu::spec_command_header(CtrlType::CmdTransferToHost2d),
        r: full_display_rect(),
        offset: 0,
        resource_id: 1,
        padding: 0,
    })
    &&& reqs.transfer.response == crate::gpu::spec_response_placeholder()
    &&& reqs.flush.request == (ResourceFlush {
        hdr: crate::gpu::spec_command_header(CtrlType::CmdResourceFlush),
        r: full_display_rect(),
        resource_id: 1,
        padding: 0,
    })
    &&& reqs.flush.response == crate::gpu::spec_response_placeholder()
}

/// One-time display setup.  Paints the demo picture into the framebuffer,
/// then runs the fixed five-step command sequence over the transport —
/// create the 2-D resource, attach the framebuffer as its backing with one
/// memory entry, set scanout 0 to the full display rectangle, transfer the
/// pixel data, flush — and notifies the device once.  Returns the five
/// request envelopes; their blocks stay resident until the reclaimer frees
/// them.  `init_rel` states everything the run wrote into the shared rings.
///
/// The capacity precondition keeps the eleven slots the sequence writes
/// free: by `lemma_fresh_slots`, no in-flight chain owns them, so no slot
/// is reissued before its chain has been reclaimed.
///
/// The demo's cosine trace is plotted by the caller: computing its samples
/// takes floating point.
pub fn init(dev: &mut Device, mem: &mut Kmem) -> (reqs: InitRequests)
    requires
        old(dev).transport.wf(),
        old(dev).fb_wf(),
        old(dev).width == DISPLAY_WIDTH,
        old(dev).height == DISPLAY_HEIGHT,
        outstanding_slots(old(dev).transport.in_flight@) + 11 <= old(
            dev,
        ).transport.queue.size as int,
        old(mem).next + 360 <= u64::MAX,
    ensures
        final(dev).transport.wf(),
        init_rel(*old(dev), old(mem).next, *final(dev), reqs),
        final(mem).next == old(mem).next + 360,
{
    let ghost pre = *old(dev);
    let ghost n_ = pre.transport.queue.size as int;
    let ghost idx0 = pre.transport.idx as int;
    let ghost a0 = pre.transport.queue.avail.idx as int;
    // Put the demo picture in the framebuffer: clear to white, an orange
    // square, a stroked black square.
    fill_rect(dev, Rect::new(0, 0, 640, 480), Pixel::new(255, 255, 255, 255));
    let ghost fb_white = dev.framebuffer@;
    fill_rect(dev, Rect::new(15, 15, 200, 200), Pixel::new(255, 130, 0, 255));
    let ghost fb_orange = dev.framebuffer@;
    stroke_rect(dev, Rect::new(255, 15, 150, 150), Pixel::new(0, 0, 0, 255), 5);
    proof {
        assert forall|r: int, c: int|
            0 <= r < DISPLAY_HEIGHT as int && 0 <= c < DISPLAY_WIDTH as int implies #[trigger]
        pixel_at(dev.framebuffer@, DISPLAY_WIDTH as int, r, c) == demo_pixel(r, c) by {
            assert(pixel_at(fb_white, 640, r, c) == (Pixel { r: 255, g: 255, b: 255, a: 255 }));
            if rect_covers(Rect { x: 15, y: 15, width: 200, height: 200 }, r, c) {
                assert(pixel_at(fb_orange, 640, r, c) == (Pixel { r: 255, g: 130, b: 0, a: 255 }));
            } else {
                assert(pixel_at(fb_orange, 640, r, c) == pixel_at(fb_white, 640, r, c));
            }
        }
    }
    // STEP 1: create a host resource
    let ghost t0 = dev.transport;
    let ghost m0 = mem.next;
    let (h0, rq0) = submit_resource_create_2d(
        dev,
        mem,
        1,
        Formats::R8G8B8A8Unorm,
        dev.width,
        dev.height,
    );
    proof {
        lemma_add_mod_eval(idx0, 0, n_);
        lemma_add_mod_assoc(idx0, 0, 2, n_);
        lemma_suffix_slots_push(t0.in_flight@, InFlight { head: h0, len: 2, addr: m0 }, 0);
        assert(h0 as int == init_chain_head(idx0, 0, n_));
        lemma_wrap16_mod(a0, n_);
        lemma_wrap16_eval(a0);
        assert(t0.queue.avail.idx as int % n_ == add_mod(a0, 0, n_));
    }
    // STEP 2: attach the framebuffer as its backing
    let ghost t1 = dev.transport;
    let fb_bytes = dev.width * dev.height * PIXEL_BYTES;
    let (h1, rq1) = submit_attach_backing(
        dev,
        mem,
        1,
        MemEntry { addr: dev.fb_base, length: fb_bytes, padding: 0 },
    );
    proof {
        lemma_add_mod_assoc(idx0, 2, 3, n_);
        lemma_wrap16_chain(a0 + 1, 1);
        lemma_wrap16_mod(a0 + 1, n_);
        lemma_suffix_slots_push(
            t1.in_flight@,
            InFlight { head: h1, len: 3, addr: (m0 + 64) as u64 },
            0,
        );
        assert(h1 as int == init_chain_head(idx0, 1, n_));
        assert(t1.queue.avail.idx as int % n_ == add_mod(a0, 1, n_));
        assert forall|jc: int, i: int|
            0 <= jc < 1 && 0 <= i < init_chain_len(jc)
                implies dev.transport.queue.desc@[#[trigger] add_mod(
                init_chain_head(idx0, jc, n_),
                i,
                n_,
            )] == chain_desc(
                init_chain_regions(m0, jc),
                i,
                init_chain_head(idx0, jc, n_),
                n_,
            ) by {
            lemma_submit_preserves_in_flight_slots(
                t1,
                init_chain_regions(m0, 1),
                dev.transport,
                h1,
                t0.in_flight@.len() as int,
                i,
            );
        }
    }
    // STEP 3: set the scanout
    let ghost t2 = dev.transport;
    let (h2, rq2) = submit_set_scanout(dev, mem, Rect::new(0, 0, dev.width, dev.height), 0, 1);
    proof {
        lemma_add_mod_assoc(idx0, 5, 2, n_);
        lemma_wrap16_chain(a0 + 2, 1);
        lemma_wrap16_mod(a0 + 2, n_);
        lemma_suffix_slots_push(
            t2.in_flight@,
            InFlight { head: h2, len: 2, addr: (m0 + 136) as u64 },
            0,
        );
        assert(h2 as int == init_chain_head(idx0, 2, n_));
        assert(t2.queue.avail.idx as int % n_ == add_mod(a0, 2, n_));
        assert forall|jc: int, i: int|
            0 <= jc < 2 && 0 <= i < init_chain_len(jc)
                implies dev.transport.queue.desc@[#[trigger] add_mod(
                init_chain_head(idx0, jc, n_),
                i,
                n_,
            )] == chain_desc(
                init_chain_regions(m0, jc),
                i,
                init_chain_head(idx0, jc, n_),
                n_,
            ) by {
            lemma_submit_preserves_in_flight_slots(
                t2,
                init_chain_regions(m0, 2),
                dev.transport,
                h2,
                t0.in_flight@.len() as int + jc,
                i,
            );
        }
    }
    // STEP 4: transfer the pixel data to the host
    let ghost t3 = dev.transport;
    let (h3, rq3) = submit_transfer_to_host_2d(
        dev,
        mem,
        Rect::new(0, 0, dev.width, dev.height),
        0,
        1,
    );
    proof {
        lemma_add_mod_assoc(idx0, 7, 2, n_);
        lemma_wrap16_chain(a0 + 3, 1);
        lemma_wrap16_mod(a0 + 3, n_);
        lemma_suffix_slots_push(
            t3.in_flight@,
            InFlight { head: h3, len: 2, addr: (m0 + 208) as u64 },
            0,
        );
        assert(h3 as int == init_chain_head(idx0, 3, n_));
        assert(t3.queue.avail.idx as int % n_ == add_mod(a0, 3, n_));
        assert forall|jc: int, i: int|
            0 <= jc < 3 && 0 <= i < init_chain_len(jc)
                implies dev.transport.queue.desc@[#[trigger] add_mod(
                init_chain_head(idx0, jc, n_),
                i,
                n_,
            )] == chain_desc(
                init_chain_regions(m0, jc),
                i,
                init_chain_head(idx0, jc, n_),
                n_,
            ) by {
            lemma_submit_preserves_in_flight_slots(
                t3,
                init_chain_regions(m0, 3),
                dev.transport,
                h3,
                t0.in_flight@.len() as int + jc,
                i,
            );
        }
    }
    // STEP 5: flush
    let ghost t4 = dev.transport;
    let (h4, rq4) = submit_resource_flush(dev, mem, Rect::new(0, 0, dev.width, dev.height), 1);
    proof {
        lemma_add_mod_assoc(idx0, 9, 2, n_);
        lemma_wrap16_chain(a0 + 4, 1);
        lemma_wrap16_mod(a0 + 4, n_);
        assert(h4 as int == init_chain_head(idx0, 4, n_));
        assert(t4.queue.avail.idx as int % n_ == add_mod(a0, 4, n_));
        assert forall|jc: int, i: int|
            0 <= jc < 4 && 0 <= i < init_chain_len(jc)
                implies dev.transport.queue.desc@[#[trigger] add_mod(
                init_chain_head(idx0, jc, n_),
                i,
                n_,
            )] == chain_desc(
                init_chain_regions(m0, jc),
                i,
                init_chain_head(idx0, jc, n_),
                n_,
            ) by {
            lemma_submit_preserves_in_flight_slots(
                t4,
                init_chain_regions(m0, 4),
                dev.transport,
                h4,
                t0.in_flight@.len() as int + jc,
                i,
            );
        }
    }
    // Run the queue: one notification after the whole sequence
    dev.regs.write_reg(Reg::QueueNotify, 0);
    InitRequests { create: rq0, backing: rq1, scanout: rq2, transfer: rq3, flush: rq4 }
}

/// Per-frame refresh: after any pixel-buffer mutation, repeats the transfer
/// and flush steps for the given rectangle and notifies the device once.
/// The one-time steps of `init` are not repeated.  Returns the two request
/// envelopes; the ensures state the two chains as written into the shared
/// rings and the Available-Ring entries that record their heads, in order.
pub fn refresh(dev: &mut Device, mem: &mut Kmem, r_rect: Rect) -> (reqs: (
    Request<TransferToHost2d, CtrlHeader>,
    Request<ResourceFlush, CtrlHeader>,
))
    requires
        old(dev).transport.wf(),
        outstanding_slots(old(dev).transport.in_flight@) + 4 <= old(
            dev,
        ).transport.queue.size as int,
        old(mem).next + 152 <= u64::MAX,
    ensures
        final(dev).transport.wf(),
        final(dev).width == old(dev).width,
        final(dev).height == old(dev).height,
        final(dev).fb_base == old(dev).fb_base,
        final(dev).framebuffer == old(dev).framebuffer,
        final(mem).next == old(mem).next + 152,
        final(dev).regs.writes@ == old(dev).regs.writes@.push(
            RegWrite { reg: Reg::QueueNotify, val: 0 },
        ),
        final(dev).regs.status == old(dev).regs.status,
        final(dev).transport.queue.size == old(dev).transport.queue.size,
        final(dev).transport.idx as int == add_mod(
            old(dev).transport.idx as int,
            4,
            old(dev).transport.queue.size as int,
        ),
        final(dev).transport.queue.avail.idx as int == wrap16(
            old(dev).transport.queue.avail.idx as int + 2,
        ),
        final(dev).transport.queue.avail.flags == old(dev).transport.queue.avail.flags,
        final(dev).transport.queue.used == old(dev).transport.queue.used,
        final(dev).transport.ack_used_idx == old(dev).transport.ack_used_idx,
        final(dev).transport.in_flight@ == old(dev).transport.in_flight@.push(
            InFlight { head: old(dev).transport.idx, len: 2, addr: old(mem).next },
        ).push(
            InFlight {
                head: add_mod(
                    old(dev).transport.idx as int,
                    2,
                    old(dev).transport.queue.size as int,
                ) as u16,
                len: 2,
                addr: (old(mem).next + 80) as u64,
            },
        ),
        // the transfer chain stands in the descriptor table at the old
        // cursor, the flush chain right after it
        forall|i: int|
            0 <= i < 2 ==> final(dev).transport.queue.desc@[#[trigger] add_mod(
                old(dev).transport.idx as int,
                i,
                old(dev).transport.queue.size as int,
            )] == chain_desc(
                two_part_regions(old(mem).next, TRANSFER_TO_HOST_2D_BYTES),
                i,
                old(dev).transport.idx as int,
                old(dev).transport.queue.size as int,
            ),
        forall|i: int|
            0 <= i < 2 ==> final(dev).transport.queue.desc@[#[trigger] add_mod(
                add_mod(old(dev).transport.idx as int, 2, old(dev).transport.queue.size as int),
                i,
                old(dev).transport.queue.size as int,
            )] == chain_desc(
                two_part_regions((old(mem).next + 80) as u64, RESOURCE_FLUSH_BYTES),
                i,
                add_mod(old(dev).transport.idx as int, 2, old(dev).transport.queue.size as int),
                old(dev).transport.queue.size as int,
            ),
        // the Available Ring records the two heads, in submission order
        final(dev).transport.queue.avail.ring@ == old(dev).transport.queue.avail.ring@.update(
            add_mod(
                old(dev).transport.queue.avail.idx as int,
                0,
                old(dev).transport.queue.size as int,
            ),
            old(dev).transport.idx,
        ).update(
            add_mod(
                old(dev).transport.queue.avail.idx as int,
                1,
                old(dev).transport.queue.size as int,
            ),
            add_mod(old(dev).transport.idx as int, 2, old(dev).transport.queue.size as int) as u16,
        ),
        // the envelopes carry the two commands for the given rectangle
        reqs.0.request == (TransferToHost2d {
            hdr: crate::gpu::spec_command_header(CtrlType::CmdTransferToHost2d),
            r: r_rect,
            offset: 0,
            resource_id: 1,
            padding: 0,
        }),
        reqs.0.response == crate::gpu::spec_response_placeholder(),
        reqs.1.request == (ResourceFlush {
            hdr: crate::gpu::spec_command_header(CtrlType::CmdResourceFlush),
            r: r_rect,
            resource_id: 1,
            padding: 0,
        }),
        reqs.1.response == crate::gpu::spec_response_placeholder(),
{
    let ghost n_ = old(dev).transport.queue.size as int;
    let ghost idx0 = old(dev).transport.idx as int;
    let ghost a0 = old(dev).transport.queue.avail.idx as int;
    let ghost t0 = dev.transport;
    let ghost m0 = mem.next;
    // STEP 4 again: transfer the mutated pixel data
    let (h0, rq0) = submit_transfer_to_host_2d(dev, mem, r_rect, 0, 1);
    proof {
        lemma_add_mod_eval(idx0, 0, n_);
        lemma_add_mod_assoc(idx0, 0, 2, n_);
        lemma_suffix_slots_push(t0.in_flight@, InFlight { head: h0, len: 2, addr: m0 }, 0);
        lemma_wrap16_mod(a0, n_);
        lemma_wrap16_eval(a0);
        assert(t0.queue.avail.idx as int % n_ == add_mod(a0, 0, n_));
    }
    // STEP 5 again: flush
    let ghost t1 = dev.transport;
    let (h1, rq1) = submit_resource_flush(dev, mem, r_rect, 1);
    proof {
        lemma_add_mod_assoc(idx0, 2, 2, n_);
        lemma_wrap16_chain(a0 + 1, 1);
        lemma_wrap16_mod(a0 + 1, n_);
        assert(h1 as int == add_mod(idx0, 2, n_));
        assert(t1.queue.avail.idx as int % n_ == add_mod(a0, 1, n_));
        // the transfer chain was not overwritten by the flush chain
        assert forall|i: int|
            0 <= i < 2 implies dev.transport.queue.desc@[#[trigger] add_mod(idx0, i, n_)]
            == chain_desc(
                two_part_regions(m0, TRANSFER_TO_HOST_2D_BYTES),
                i,
                idx0,
                n_,
            ) by {
            lemma_submit_preserves_in_flight_slots(
                t1,
                two_part_regions((m0 + 80) as u64, RESOURCE_FLUSH_BYTES),
                dev.transport,
                h1,
                t0.in_flight@.len() as int,
                i,
            );
        }
    }
    // run the queue
    dev.regs.write_reg(Reg::QueueNotify, 0);
    (rq0, rq1)
}

/// Reaps one device's Used Ring: frees each completed request block exactly
/// once and advances the acknowledged index.  Returns the released block
/// addresses for the caller to hand back to the allocator.
pub fn pending(dev: &mut Device) -> (freed: Vec<u64>)
    requires
        old(dev).transport.wf(),
    ensures
        final(dev).transport.wf(),
        Transport::reap_rel(old(dev).transport, final(dev).transport, freed@),
        old(dev).transport.pending_completions() == 0 ==> freed@.len() == 0
            && final(dev).transport == old(dev).transport,
        final(dev).regs == old(dev).regs,
        final(dev).framebuffer == old(dev).framebuffer,
        final(dev).fb_base == old(dev).fb_base,
        final(dev).width == old(dev).width,
        final(dev).height == old(dev).height,
{
    dev.transport.reap_completions()
}

/// Raised when an interrupt names a device slot that was never populated:
/// reported, not fatal to the kernel.
#[derive(Clone, Copy, PartialEq, Eq, Structural, Debug)]
pub enum InterruptError {
    InvalidDevice,
}

/// The index-addressed registry of discovered devices, one slot per possible
/// bus position; a slot stays unpopulated when its device failed
/// initialization.
pub struct DeviceTable {
    pub slots: Vec<Option<Device>>,
}

impl DeviceTable {
    /// Eight empty slots, as the bus has eight probe addresses.
    pub fn new() -> (t: DeviceTable)
        ensures
            t.slots@.len() == 8,
            forall|i: int| 0 <= i < 8 ==> t.slots@[i] is None,
    {
        let mut slots: Vec<Option<Device>> = Vec::new();
        let mut i: usize = 0;
        while i < 8
            invariant
                i <= 8,
                slots@.len() == i as int,
                forall|j: int| 0 <= j < i as int ==> slots@[j] is None,
            decreases 8 - i as int,
        {
            slots.push(None);
            i = i + 1;
        }
        DeviceTable { slots }
    }
}

/// Collaborator entry point for first-time setup of one bus position:
/// `gdev` is the 1-based device number the bus probe reported.  An
/// unpopulated slot — a device whose initialization failed — is left alone
/// and reported as `None`, as the original leaves such a probe silent; a
/// populated one has the display-setup sequence (`init`) run on it, and the
/// five request envelopes come back.
pub fn init_slot(table: &mut DeviceTable, gdev: usize, mem: &mut Kmem) -> (r: Option<
    InitRequests,
>)
    requires
        1 <= gdev <= old(table).slots@.len(),
        old(table).slots@[gdev - 1] matches Some(d) ==> {
            &&& d.transport.wf()
            &&& d.fb_wf()
            &&& d.width == DISPLAY_WIDTH
            &&& d.height == DISPLAY_HEIGHT
            &&& outstanding_slots(d.transport.in_flight@) + 11 <= d.transport.queue.size as int
        },
        old(mem).next + 360 <= u64::MAX,
    ensures
        final(table).slots@.len() == old(table).slots@.len(),
        forall|i: int|
            0 <= i < old(table).slots@.len() && i != gdev - 1 ==> final(table).slots@[i] == old(
                table,
            ).slots@[i],
        r is None <==> old(table).slots@[gdev - 1] is None,
        r is None ==> final(table).slots@[gdev - 1] is None && *final(mem) == *old(mem),
        r matches Some(reqs) ==> (old(table).slots@[gdev - 1] matches Some(d0)
            && final(table).slots@[gdev - 1] matches Some(d1) && d1.transport.wf() && init_rel(
            d0,
            old(mem).next,
            d1,
            reqs,
        ) && final(mem).next == old(mem).next + 360),
{
    let idx = gdev - 1;
    let slot = vec_index_mut(&mut table.slots, idx);
    match slot {
        Some(dev) => Some(init(dev, mem)),
        None => None,
    }
}

/// Invoked by the trap dispatcher when the device raises an interrupt: reaps
/// the named device's Used Ring and returns the released block addresses.
/// An interrupt for a slot that was never populated is reported as an error
/// and changes nothing.
pub fn handle_interrupt(table: &mut DeviceTable, idx: usize) -> (r: Result<
    Vec<u64>,
    InterruptError,
>)
    requires
        idx < old(table).slots@.len(),
        old(table).slots@[idx as int] matches Some(d) ==> d.transport.wf(),
    ensures
        final(table).slots@.len() == old(table).slots@.len(),
        forall|i: int|
            0 <= i < old(table).slots@.len() && i != idx as int ==> final(table).slots@[i] == old(
                table,
            ).slots@[i],
        r is Err <==> old(table).slots@[idx as int] is None,
        r is Err ==> final(table).slots@[idx as int] is None,
        r is Ok ==> (old(table).slots@[idx as int] matches Some(d0)
            && final(table).slots@[idx as int] matches Some(d1) && d1.transport.wf()
            && Transport::reap_rel(
            d0.transport,
            d1.transport,
            r->Ok_0@,
        ) && d1.regs == d0.regs && d1.framebuffer == d0.framebuffer && d1.fb_base == d0.fb_base
            && d1.width == d0.width && d1.height == d0.height),
{
    let slot = vec_index_mut(&mut table.slots, idx);
    match slot {
        Some(dev) => Ok(pending(dev)),
        None => Err(InterruptError::InvalidDevice),
    }
}

} // verus!
