use virtgpu::handshake::{
    handshake, negotiate_features, reg_offset, DeviceRegs, InitError, Reg, RegWrite,
    PAGE_SIZE, STATUS_ACKNOWLEDGE, STATUS_DRIVER, STATUS_DRIVER_OK, STATUS_FAILED,
    STATUS_FEATURES_OK,
};

#[test]
fn status_bits_have_the_protocol_values() {
    assert_eq!(STATUS_ACKNOWLEDGE, 1);
    assert_eq!(STATUS_DRIVER, 2);
    assert_eq!(STATUS_DRIVER_OK, 4);
    assert_eq!(STATUS_FEATURES_OK, 8);
    assert_eq!(STATUS_FAILED, 128);
}

#[test]
fn register_offsets_scale_by_four_bytes() {
    assert_eq!(reg_offset(Reg::HostFeatures), 0x010);
    assert_eq!(reg_offset(Reg::GuestFeatures), 0x020);
    assert_eq!(reg_offset(Reg::GuestPageSize), 0x028);
    assert_eq!(reg_offset(Reg::QueueSel), 0x030);
    assert_eq!(reg_offset(Reg::QueueNumMax), 0x034);
    assert_eq!(reg_offset(Reg::QueueNum), 0x038);
    assert_eq!(reg_offset(Reg::QueuePfn), 0x040);
    assert_eq!(reg_offset(Reg::QueueNotify), 0x050);
    assert_eq!(reg_offset(Reg::Status), 0x070);
}

#[test]
fn negotiated_features_are_a_subset_of_the_host_bitmap() {
    for host in [0u32, 1, 3, 0b1010, 0xffff_ffff, 0x8000_0001] {
        let accepted = negotiate_features(host);
        assert_eq!(accepted & host, accepted);
        assert_eq!(accepted & !host, 0);
    }
}

#[test]
fn successful_handshake_reaches_driver_ok() {
    let mut regs = DeviceRegs::new(0b11, 128, true);
    let r = handshake(&mut regs, 128, 0x4000_0000);
    assert_eq!(r, Ok(()));
    assert_eq!(
        regs.status,
        STATUS_ACKNOWLEDGE | STATUS_DRIVER | STATUS_FEATURES_OK | STATUS_DRIVER_OK
    );
    assert_eq!(regs.guest_features, 0b11);
    assert_eq!(regs.queue_sel, 0);
    assert_eq!(regs.queue_num, 128);
    assert_eq!(regs.guest_page_size, PAGE_SIZE);
    assert_eq!(regs.queue_pfn, 0x4000_0000 / PAGE_SIZE);
    // the full, ordered write sequence
    assert_eq!(
        regs.writes,
        vec![
            RegWrite { reg: Reg::Status, val: 0 },
            RegWrite { reg: Reg::Status, val: 1 },
            RegWrite { reg: Reg::Status, val: 3 },
            RegWrite { reg: Reg::GuestFeatures, val: 0b11 },
            RegWrite { reg: Reg::Status, val: 11 },
            RegWrite { reg: Reg::QueueSel, val: 0 },
            RegWrite { reg: Reg::QueueNum, val: 128 },
            RegWrite { reg: Reg::GuestPageSize, val: 4096 },
            RegWrite { reg: Reg::QueuePfn, val: 0x4000_0000 / 4096 },
            RegWrite { reg: Reg::Status, val: 15 },
        ]
    );
}

#[test]
fn feature_rejection_writes_failed_and_nothing_more() {
    let mut regs = DeviceRegs::new(0xff, 128, false);
    let r = handshake(&mut regs, 128, 0x4000_0000);
    assert_eq!(r, Err(InitError::FeaturesRejected));
    assert_eq!(regs.status, STATUS_FAILED);
    // after the failed readback, the only further register write is Failed
    assert_eq!(regs.writes.len(), 6);
    assert_eq!(regs.writes[4], RegWrite { reg: Reg::Status, val: 11 });
    assert_eq!(regs.writes[5], RegWrite { reg: Reg::Status, val: 128 });
}

#[test]
fn ring_larger_than_device_maximum_fails_initialization() {
    let mut regs = DeviceRegs::new(0, 64, true);
    let r = handshake(&mut regs, 128, 0x4000_0000);
    assert_eq!(r, Err(InitError::RingTooLarge));
    // the handshake stopped right after selecting queue 0
    assert_eq!(regs.writes.len(), 6);
    assert_eq!(regs.writes[5], RegWrite { reg: Reg::QueueSel, val: 0 });
}

#[test]
fn queue_capacity_equal_to_ring_size_is_accepted() {
    let mut regs = DeviceRegs::new(0, 128, true);
    assert_eq!(handshake(&mut regs, 128, 0), Ok(()));
}

#[test]
fn write_reg_logs_every_write_in_order() {
    let mut regs = DeviceRegs::new(0, 0, true);
    regs.write_reg(Reg::QueueNotify, 0);
    regs.write_reg(Reg::Status, 7);
    assert_eq!(regs.writes.len(), 2);
    assert_eq!(regs.writes[0], RegWrite { reg: Reg::QueueNotify, val: 0 });
    assert_eq!(regs.writes[1], RegWrite { reg: Reg::Status, val: 7 });
    assert_eq!(regs.status, 7);
}
