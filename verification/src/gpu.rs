//! The GPU command set: fixed binary layouts shared bit-for-bit with the
//! device, the numeric op-codes of the displayed command set, and the request
//! envelopes that carry one command's request payload followed by its
//! response payload.

use vstd::prelude::*;

verus! {

/// Feature bit: the device supports virgl 3-D commands.
pub const F_VIRGL: u32 = 0;

/// Feature bit: the device exposes EDID display data.
pub const F_EDID: u32 = 1;

/// Event bit: the display configuration changed.
pub const EVENT_DISPLAY: u32 = 1 << 0;

/// Flag in a control header: the fence id is valid.
pub const FLAG_FENCE: u32 = 1 << 0;

/// The most scanouts a device can expose.
pub const MAX_SCANOUTS: usize = 16;

/// Size in bytes of a control header on the wire:
/// `type:u32, flags:u32, fence_id:u64, context_id:u32, padding:u32`.
pub const CTRL_HEADER_BYTES: u32 = 24;

/// Size in bytes of a `ResourceCreate2d` request on the wire.
pub const RESOURCE_CREATE_2D_BYTES: u32 = 40;

/// Size in bytes of an `AttachBacking` request on the wire.
pub const ATTACH_BACKING_BYTES: u32 = 32;

/// Size in bytes of a `MemEntry` record on the wire.
pub const MEM_ENTRY_BYTES: u32 = 16;

/// Size in bytes of a `SetScanout` request on the wire.
pub const SET_SCANOUT_BYTES: u32 = 48;

/// Size in bytes of a `TransferToHost2d` request on the wire.
pub const TRANSFER_TO_HOST_2D_BYTES: u32 = 56;

/// Size in bytes of a `ResourceFlush` request on the wire.
pub const RESOURCE_FLUSH_BYTES: u32 = 48;

/// The device's configuration space.  The device signals pending events in
/// `events_read`; the driver must not write that field, and clears events by
/// writing ones into `events_clear`.  `num_scanouts` is between 1 and 16.
#[derive(Clone, Copy, PartialEq, Eq, Structural, Debug)]
pub struct Config {
    pub events_read: u32,
    pub events_clear: u32,
    pub num_scanouts: u32,
    pub reserved: u32,
}

/// Every command and response type of the displayed command set.
#[derive(Clone, Copy, PartialEq, Eq, Structural, Debug)]
pub enum CtrlType {
    CmdGetDisplayInfo,
    CmdResourceCreate2d,
    CmdResourceUref,
    CmdSetScanout,
    CmdResourceFlush,
    CmdTransferToHost2d,
    CmdResourceAttachBacking,
    CmdResourceDetachBacking,
    CmdGetCapsetInfo,
    CmdGetCapset,
    CmdGetEdid,
    CmdUpdateCursor,
    CmdMoveCursor,
    RespOkNoData,
    RespOkDisplayInfo,
    RespOkCapsetInfo,
    RespOkCapset,
    RespOkEdid,
    RespErrUnspec,
    RespErrOutOfMemory,
    RespErrInvalidScanoutId,
    RespErrInvalidResourceId,
    RespErrInvalidContextId,
    RespErrInvalidParameter,
}

/// The numeric op-code of a command or response type on the wire: 2-D
/// commands from 0x0100, cursor commands from 0x0300, success responses from
/// 0x1100, error responses from 0x1200.
pub open spec fn spec_ctrl_type_code(t: CtrlType) -> u32 {
    match t {
        CtrlType::CmdGetDisplayInfo => 0x0100,
        CtrlType::CmdResourceCreate2d => 0x0101,
        CtrlType::CmdResourceUref => 0x0102,
        CtrlType::CmdSetScanout => 0x0103,
        CtrlType::CmdResourceFlush => 0x0104,
        CtrlType::CmdTransferToHost2d => 0x0105,
        CtrlType::CmdResourceAttachBacking => 0x0106,
        CtrlType::CmdResourceDetachBacking => 0x0107,
        CtrlType::CmdGetCapsetInfo => 0x0108,
        CtrlType::CmdGetCapset => 0x0109,
        CtrlType::CmdGetEdid => 0x010a,
        CtrlType::CmdUpdateCursor => 0x0300,
        CtrlType::CmdMoveCursor => 0x0301,
        CtrlType::RespOkNoData => 0x1100,
        CtrlType::RespOkDisplayInfo => 0x1101,
        CtrlType::RespOkCapsetInfo => 0x1102,
        CtrlType::RespOkCapset => 0x1103,
        CtrlType::RespOkEdid => 0x1104,
        CtrlType::RespErrUnspec => 0x1200,
        CtrlType::RespErrOutOfMemory => 0x1201,
        CtrlType::RespErrInvalidScanoutId => 0x1202,
        CtrlType::RespErrInvalidResourceId => 0x1203,
        CtrlType::RespErrInvalidContextId => 0x1204,
        CtrlType::RespErrInvalidParameter => 0x1205,
    }
}

/// The numeric op-code of a command or response type on the wire.
pub fn ctrl_type_code(t: CtrlType) -> (code: u32)
    ensures
        code == spec_ctrl_type_code(t),
{
    match t {
        CtrlType::CmdGetDisplayInfo => 0x0100,
        CtrlType::CmdResourceCreate2d => 0x0101,
        CtrlType::CmdResourceUref => 0x0102,
        CtrlType::CmdSetScanout => 0x0103,
        CtrlType::CmdResourceFlush => 0x0104,
        CtrlType::CmdTransferToHost2d => 0x0105,
        CtrlType::CmdResourceAttachBacking => 0x0106,
        CtrlType::CmdResourceDetachBacking => 0x0107,
        CtrlType::CmdGetCapsetInfo => 0x0108,
        CtrlType::CmdGetCapset => 0x0109,
        CtrlType::CmdGetEdid => 0x010a,
        CtrlType::CmdUpdateCursor => 0x0300,
        CtrlType::CmdMoveCursor => 0x0301,
        CtrlType::RespOkNoData => 0x1100,
        CtrlType::RespOkDisplayInfo => 0x1101,
        CtrlType::RespOkCapsetInfo => 0x1102,
        CtrlType::RespOkCapset => 0x1103,
        CtrlType::RespOkEdid => 0x1104,
        CtrlType::RespErrUnspec => 0x1200,
        CtrlType::RespErrOutOfMemory => 0x1201,
        CtrlType::RespErrInvalidScanoutId => 0x1202,
        CtrlType::RespErrInvalidResourceId => 0x1203,
        CtrlType::RespErrInvalidContextId => 0x1204,
        CtrlType::RespErrInvalidParameter => 0x1205,
    }
}

/// Whether a response type is one of the error responses (`0x1200..0x1205`).
/// The reference behavior never inspects response codes after posting; a
/// caller that wants to surface device-level failures can classify the
/// response header it gets back with this.
pub open spec fn spec_is_error_response(t: CtrlType) -> bool {
    match t {
        CtrlType::RespErrUnspec
        | CtrlType::RespErrOutOfMemory
        | CtrlType::RespErrInvalidScanoutId
        | CtrlType::RespErrInvalidResourceId
        | CtrlType::RespErrInvalidContextId
        | CtrlType::RespErrInvalidParameter => true,
        _ => false,
    }
}

/// Whether a response type is one of the error responses.
pub fn is_error_response(t: CtrlType) -> (r: bool)
    ensures
        r == spec_is_error_response(t),
{
    match t {
        CtrlType::RespErrUnspec
        | CtrlType::RespErrOutOfMemory
        | CtrlType::RespErrInvalidScanoutId
        | CtrlType::RespErrInvalidResourceId
        | CtrlType::RespErrInvalidContextId
        | CtrlType::RespErrInvalidParameter => true,
        _ => false,
    }
}

/// The generic control header that starts every request and response:
/// `type:u32, flags:u32, fence_id:u64, context_id:u32, padding:u32`.
#[derive(Clone, Copy, PartialEq, Eq, Structural, Debug)]
pub struct CtrlHeader {
    pub ctrl_type: CtrlType,
    pub flags: u32,
    pub fence_id: u64,
    pub ctx_id: u32,
    pub padding: u32,
}

/// The header that begins a command of the given type, with no fence and no
/// context.
pub open spec fn spec_command_header(t: CtrlType) -> CtrlHeader {
    CtrlHeader { ctrl_type: t, flags: 0, fence_id: 0, ctx_id: 0, padding: 0 }
}

/// The placeholder a response region holds before the device writes it.
pub open spec fn spec_response_placeholder() -> CtrlHeader {
    spec_command_header(CtrlType::RespOkNoData)
}

/// A rectangle of the display, in pixels.
#[derive(Clone, Copy, PartialEq, Eq, Structural, Debug)]
pub struct Rect {
    pub x: u32,
    pub y: u32,
    pub width: u32,
    pub height: u32,
}

impl Rect {
    pub fn new(x: u32, y: u32, width: u32, height: u32) -> (r: Self)
        ensures
            r == (Rect { x, y, width, height }),
    {
        Self { x, y, width, height }
    }
}

/// One scanout as reported by the device.
#[derive(Clone, Copy, PartialEq, Eq, Structural, Debug)]
pub struct DisplayOne {
    pub r: Rect,
    pub enabled: u32,
    pub flags: u32,
}

/// Response to `CmdGetDisplayInfo`: one record per possible scanout.
#[derive(Clone, Copy)]
pub struct RespDisplayInfo {
    pub hdr: CtrlHeader,
    pub pmodes: [DisplayOne; 16],
}

/// Request for the EDID data of one scanout.
#[derive(Clone, Copy, PartialEq, Eq, Structural, Debug)]
pub struct GetEdid {
    pub hdr: CtrlHeader,
    pub scanout: u32,
    pub padding: u32,
}

/// Response to `CmdGetEdid`.
#[derive(Clone, Copy)]
pub struct RespEdid {
    pub hdr: CtrlHeader,
    pub size: u32,
    pub padding: u32,
    pub edid: [u8; 1024],
}

/// Pixel formats the device understands, by their wire values.
#[derive(Clone, Copy, PartialEq, Eq, Structural, Debug)]
pub enum Formats {
    B8G8R8A8Unorm,
    B8G8R8X8Unorm,
    A8R8G8B8Unorm,
    X8R8G8B8Unorm,
    R8G8B8A8Unorm,
    X8B8G8R8Unorm,
    A8B8G8R8Unorm,
    R8G8B8X8Unorm,
}

/// The numeric value of a pixel format on the wire.
pub open spec fn spec_format_code(f: Formats) -> u32 {
    match f {
        Formats::B8G8R8A8Unorm => 1,
        Formats::B8G8R8X8Unorm => 2,
        Formats::A8R8G8B8Unorm => 3,
        Formats::X8R8G8B8Unorm => 4,
        Formats::R8G8B8A8Unorm => 67,
        Formats::X8B8G8R8Unorm => 68,
        Formats::A8B8G8R8Unorm => 121,
        Formats::R8G8B8X8Unorm => 134,
    }
}

/// The numeric value of a pixel format on the wire.
pub fn format_code(f: Formats) -> (code: u32)
    ensures
        code == spec_format_code(f),
{
    match f {
        Formats::B8G8R8A8Unorm => 1,
        Formats::B8G8R8X8Unorm => 2,
        Formats::A8R8G8B8Unorm => 3,
        Formats::X8R8G8B8Unorm => 4,
        Formats::R8G8B8A8Unorm => 67,
        Formats::X8B8G8R8Unorm => 68,
        Formats::A8B8G8R8Unorm => 121,
        Formats::R8G8B8X8Unorm => 134,
    }
}

/// Declares a host-side drawable resource: id, pixel format, size.
#[derive(Clone, Copy, PartialEq, Eq, Structural, Debug)]
pub struct ResourceCreate2d {
    pub hdr: CtrlHeader,
    pub resource_id: u32,
    pub format: Formats,
    pub width: u32,
    pub height: u32,
}

/// Releases a host-side resource.
#[derive(Clone, Copy, PartialEq, Eq, Structural, Debug)]
pub struct ResourceUnref {
    pub hdr: CtrlHeader,
    pub resource_id: u32,
    pub padding: u32,
}

/// Assigns a resource to a scanout covering the given rectangle.
#[derive(Clone, Copy, PartialEq, Eq, Structural, Debug)]
pub struct SetScanout {
    pub hdr: CtrlHeader,
    pub r: Rect,
    pub scanout_id: u32,
    pub resource_id: u32,
}

/// Presents the already-transferred region of a resource on its scanout.
#[derive(Clone, Copy, PartialEq, Eq, Structural, Debug)]
pub struct ResourceFlush {
    pub hdr: CtrlHeader,
    pub r: Rect,
    pub resource_id: u32,
    pub padding: u32,
}

/// Copies a rectangle of guest-backed pixel data into the resource's
/// host-visible representation.
#[derive(Clone, Copy, PartialEq, Eq, Structural, Debug)]
pub struct TransferToHost2d {
    pub hdr: CtrlHeader,
    pub r: Rect,
    pub offset: u64,
    pub resource_id: u32,
    pub padding: u32,
}

/// Binds guest memory to a resource as its pixel storage; followed on the
/// wire by `nr_entries` memory-entry records.
#[derive(Clone, Copy, PartialEq, Eq, Structural, Debug)]
pub struct AttachBacking {
    pub hdr: CtrlHeader,
    pub resource_id: u32,
    pub nr_entries: u32,
}

/// One region of guest memory backing a resource.
#[derive(Clone, Copy, PartialEq, Eq, Structural, Debug)]
pub struct MemEntry {
    pub addr: u64,
    pub length: u32,
    pub padding: u32,
}

/// Unbinds a resource's backing memory.
#[derive(Clone, Copy, PartialEq, Eq, Structural, Debug)]
pub struct DetachBacking {
    pub hdr: CtrlHeader,
    pub resource_id: u32,
    pub padding: u32,
}

/// Position of the cursor on one scanout.
#[derive(Clone, Copy, PartialEq, Eq, Structural, Debug)]
pub struct CursorPos {
    pub scanout_id: u32,
    pub x: u32,
    pub y: u32,
    pub padding: u32,
}

/// Moves or replaces the cursor image.
#[derive(Clone, Copy, PartialEq, Eq, Structural, Debug)]
pub struct UpdateCursor {
    pub hdr: CtrlHeader,
    pub pos: CursorPos,
    pub resource_id: u32,
    pub hot_x: u32,
    pub hot_y: u32,
    pub padding: u32,
}

/// One pixel of the framebuffer, in R8G8B8A8 layout.
#[derive(Clone, Copy, PartialEq, Eq, Structural, Debug)]
pub struct Pixel {
    pub r: u8,
    pub g: u8,
    pub b: u8,
    pub a: u8,
}

impl Pixel {
    pub fn new(r: u8, g: u8, b: u8, a: u8) -> (p: Self)
        ensures
            p == (Pixel { r, g, b, a }),
    {
        Self { r, g, b, a }
    }
}

/// A two-part request envelope: one command's request payload immediately
/// followed by its response payload, so that one block carries the whole
/// exchange and one release frees it.  The response region holds a
/// placeholder until the device overwrites it.
pub struct Request<RqT, RpT> {
    pub request: RqT,
    pub response: RpT,
}

impl<RqT, RpT> Request<RqT, RpT> {
    pub fn new(request: RqT, response: RpT) -> (rq: Self)
        ensures
            rq.request == request,
            rq.response == response,
    {
        Self { request, response }
    }
}

/// A three-part request envelope: request payload, an inline memory-entry
/// segment, then the response payload.
pub struct Request3<RqT, RmT, RpT> {
    pub request: RqT,
    pub mementries: RmT,
    pub response: RpT,
}

impl<RqT, RmT, RpT> Request3<RqT, RmT, RpT> {
    pub fn new(request: RqT, meminfo: RmT, response: RpT) -> (rq: Self)
        ensures
            rq.request == request,
            rq.mementries == meminfo,
            rq.response == response,
    {
        Self { request, mementries: meminfo, response }
    }
}

} // verus!
