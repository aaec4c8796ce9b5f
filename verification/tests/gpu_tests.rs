use virtgpu::gpu::{
    ctrl_type_code, format_code, is_error_response, CtrlHeader, CtrlType, Formats, MemEntry,
    Pixel, Rect, Request, Request3, ResourceCreate2d, ATTACH_BACKING_BYTES, CTRL_HEADER_BYTES,
    MEM_ENTRY_BYTES, RESOURCE_CREATE_2D_BYTES, RESOURCE_FLUSH_BYTES, SET_SCANOUT_BYTES,
    TRANSFER_TO_HOST_2D_BYTES,
};

#[test]
fn command_op_codes_match_the_displayed_command_set() {
    assert_eq!(ctrl_type_code(CtrlType::CmdGetDisplayInfo), 0x0100);
    assert_eq!(ctrl_type_code(CtrlType::CmdResourceCreate2d), 0x0101);
    assert_eq!(ctrl_type_code(CtrlType::CmdSetScanout), 0x0103);
    assert_eq!(ctrl_type_code(CtrlType::CmdResourceFlush), 0x0104);
    assert_eq!(ctrl_type_code(CtrlType::CmdTransferToHost2d), 0x0105);
    assert_eq!(ctrl_type_code(CtrlType::CmdResourceAttachBacking), 0x0106);
    assert_eq!(ctrl_type_code(CtrlType::CmdGetEdid), 0x010a);
    assert_eq!(ctrl_type_code(CtrlType::CmdUpdateCursor), 0x0300);
    assert_eq!(ctrl_type_code(CtrlType::CmdMoveCursor), 0x0301);
}

#[test]
fn response_codes_span_the_success_and_error_ranges() {
    assert_eq!(ctrl_type_code(CtrlType::RespOkNoData), 0x1100);
    assert_eq!(ctrl_type_code(CtrlType::RespOkDisplayInfo), 0x1101);
    assert_eq!(ctrl_type_code(CtrlType::RespOkEdid), 0x1104);
    assert_eq!(ctrl_type_code(CtrlType::RespErrUnspec), 0x1200);
    assert_eq!(ctrl_type_code(CtrlType::RespErrOutOfMemory), 0x1201);
    assert_eq!(ctrl_type_code(CtrlType::RespErrInvalidParameter), 0x1205);
}

#[test]
fn error_responses_are_classified_as_errors() {
    assert!(is_error_response(CtrlType::RespErrUnspec));
    assert!(is_error_response(CtrlType::RespErrOutOfMemory));
    assert!(is_error_response(CtrlType::RespErrInvalidScanoutId));
    assert!(is_error_response(CtrlType::RespErrInvalidResourceId));
    assert!(is_error_response(CtrlType::RespErrInvalidContextId));
    assert!(is_error_response(CtrlType::RespErrInvalidParameter));
    assert!(!is_error_response(CtrlType::RespOkNoData));
    assert!(!is_error_response(CtrlType::CmdResourceCreate2d));
}

#[test]
fn pixel_format_codes_match_the_wire_values() {
    assert_eq!(format_code(Formats::B8G8R8A8Unorm), 1);
    assert_eq!(format_code(Formats::B8G8R8X8Unorm), 2);
    assert_eq!(format_code(Formats::A8R8G8B8Unorm), 3);
    assert_eq!(format_code(Formats::X8R8G8B8Unorm), 4);
    assert_eq!(format_code(Formats::R8G8B8A8Unorm), 67);
    assert_eq!(format_code(Formats::X8B8G8R8Unorm), 68);
    assert_eq!(format_code(Formats::A8B8G8R8Unorm), 121);
    assert_eq!(format_code(Formats::R8G8B8X8Unorm), 134);
}

#[test]
fn wire_sizes_match_the_fixed_layouts() {
    // CtrlHeader: type + flags + fence_id + context_id + padding
    assert_eq!(CTRL_HEADER_BYTES, 4 + 4 + 8 + 4 + 4);
    assert_eq!(RESOURCE_CREATE_2D_BYTES, 24 + 4 + 4 + 4 + 4);
    assert_eq!(ATTACH_BACKING_BYTES, 24 + 4 + 4);
    assert_eq!(MEM_ENTRY_BYTES, 8 + 4 + 4);
    assert_eq!(SET_SCANOUT_BYTES, 24 + 16 + 4 + 4);
    assert_eq!(TRANSFER_TO_HOST_2D_BYTES, 24 + 16 + 8 + 4 + 4);
    assert_eq!(RESOURCE_FLUSH_BYTES, 24 + 16 + 4 + 4);
}

#[test]
fn rect_and_pixel_constructors_keep_their_fields() {
    let r = Rect::new(10, 20, 30, 40);
    assert_eq!(r.x, 10);
    assert_eq!(r.y, 20);
    assert_eq!(r.width, 30);
    assert_eq!(r.height, 40);
    let p = Pixel::new(255, 130, 0, 255);
    assert_eq!(p.r, 255);
    assert_eq!(p.g, 130);
    assert_eq!(p.b, 0);
    assert_eq!(p.a, 255);
}

#[test]
fn request_envelopes_hold_payload_then_response() {
    let hdr = CtrlHeader {
        ctrl_type: CtrlType::CmdResourceCreate2d,
        flags: 0,
        fence_id: 0,
        ctx_id: 0,
        padding: 0,
    };
    let resp = CtrlHeader {
        ctrl_type: CtrlType::RespOkNoData,
        flags: 0,
        fence_id: 0,
        ctx_id: 0,
        padding: 0,
    };
    let rq = Request::new(
        ResourceCreate2d {
            hdr,
            resource_id: 1,
            format: Formats::R8G8B8A8Unorm,
            width: 640,
            height: 480,
        },
        resp,
    );
    assert_eq!(rq.request.resource_id, 1);
    assert_eq!(rq.request.width, 640);
    assert_eq!(rq.response.ctrl_type, CtrlType::RespOkNoData);

    let rq3 = Request3::new(
        1u32,
        MemEntry { addr: 0x1000, length: 64, padding: 0 },
        resp,
    );
    assert_eq!(rq3.request, 1);
    assert_eq!(rq3.mementries.addr, 0x1000);
    assert_eq!(rq3.mementries.length, 64);
    assert_eq!(rq3.response.ctrl_type, CtrlType::RespOkNoData);
}
