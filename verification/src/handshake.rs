//! The device initialization handshake.
//!
//! A status-register state machine brings a discovered device from reset to
//! operational: `Reset -> Acknowledge -> Driver -> (negotiate features) ->
//! FeaturesOk -> (verify FeaturesOk persists) -> DriverOk`.  Status bits are
//! set cumulatively and never cleared except on failure.  The register block
//! is memory-mapped hardware on a real bus; here it is modeled as a record
//! that keeps the registers' values, the device's two free choices (its
//! feature bitmap and queue capacity, and whether it accepts the negotiated
//! features), and the exact sequence of writes the driver performed.

use vstd::prelude::*;

verus! {

/// Status bit: the guest has noticed the device.
pub const STATUS_ACKNOWLEDGE: u32 = 1;

/// Status bit: the guest knows how to drive the device.
pub const STATUS_DRIVER: u32 = 2;

/// Status bit: the driver is set up and the device may be used.
pub const STATUS_DRIVER_OK: u32 = 4;

/// Status bit: feature negotiation is complete.
pub const STATUS_FEATURES_OK: u32 = 8;

/// Status bit: the guest has given up on the device.
pub const STATUS_FAILED: u32 = 128;

/// The size of one page of guest memory, programmed into the device during
/// setup.
pub const PAGE_SIZE: u32 = 4096;

/// The registers of the memory-mapped block, accessed only through volatile
/// reads and writes at offsets scaled by 4 bytes.
#[derive(Clone, Copy, PartialEq, Eq, Structural, Debug)]
pub enum Reg {
    Status,
    HostFeatures,
    GuestFeatures,
    QueueSel,
    QueueNumMax,
    QueueNum,
    QueuePfn,
    QueueNotify,
    GuestPageSize,
}

/// Byte offset of a register within the memory-mapped block.
pub open spec fn spec_reg_offset(r: Reg) -> u32 {
    match r {
        Reg::HostFeatures => 0x010,
        Reg::GuestFeatures => 0x020,
        Reg::GuestPageSize => 0x028,
        Reg::QueueSel => 0x030,
        Reg::QueueNumMax => 0x034,
        Reg::QueueNum => 0x038,
        Reg::QueuePfn => 0x040,
        Reg::QueueNotify => 0x050,
        Reg::Status => 0x070,
    }
}

/// Byte offset of a register within the memory-mapped block.
pub fn reg_offset(r: Reg) -> (off: u32)
    ensures
        off == spec_reg_offset(r),
{
    match r {
        Reg::HostFeatures => 0x010,
        Reg::GuestFeatures => 0x020,
        Reg::GuestPageSize => 0x028,
        Reg::QueueSel => 0x030,
        Reg::QueueNumMax => 0x034,
        Reg::QueueNum => 0x038,
        Reg::QueuePfn => 0x040,
        Reg::QueueNotify => 0x050,
        Reg::Status => 0x070,
    }
}

/// One volatile write the driver performed on the register block.
#[derive(Clone, Copy, PartialEq, Eq, Structural, Debug)]
pub struct RegWrite {
    pub reg: Reg,
    pub val: u32,
}

/// The model of one device's register block.  The writable registers hold the
/// last value the driver stored; `host_features`, `queue_num_max` and
/// `accepts_features` are the device's side of the handshake; `writes` logs
/// every driver write in order, so a contract can state exactly which
/// registers the driver touched and with what.
#[derive(Debug)]
pub struct DeviceRegs {
    pub status: u32,
    pub host_features: u32,
    pub guest_features: u32,
    pub queue_sel: u32,
    pub queue_num: u32,
    pub queue_pfn: u32,
    pub guest_page_size: u32,
    pub queue_num_max: u32,
    pub accepts_features: bool,
    pub writes: Vec<RegWrite>,
}

/// The two failure states of device initialization; both are fatal for this
/// device instance, which is reported and left uninitialized, never retried.
#[derive(Clone, Copy, PartialEq, Eq, Structural, Debug)]
pub enum InitError {
    /// The device rejected the feature subset the driver wrote back.
    FeaturesRejected,
    /// The driver's fixed ring size exceeds the queue size the device can
    /// take.
    RingTooLarge,
}

impl DeviceRegs {
    /// A device as found at bus probe: registers reset, the device's feature
    /// bitmap and queue capacity as given, and the device willing (or not) to
    /// accept the features written back.
    pub fn new(host_features: u32, queue_num_max: u32, accepts_features: bool) -> (regs:
        DeviceRegs)
        ensures
            regs.status == 0,
            regs.host_features == host_features,
            regs.guest_features == 0,
            regs.queue_sel == 0,
            regs.queue_num == 0,
            regs.queue_pfn == 0,
            regs.guest_page_size == 0,
            regs.queue_num_max == queue_num_max,
            regs.accepts_features == accepts_features,
            regs.writes@ =~= Seq::<RegWrite>::empty(),
    {
        DeviceRegs {
            status: 0,
            host_features,
            guest_features: 0,
            queue_sel: 0,
            queue_num: 0,
            queue_pfn: 0,
            guest_page_size: 0,
            queue_num_max,
            accepts_features,
            writes: Vec::new(),
        }
    }

    /// The register block with one more driver write applied: the named
    /// register holds the value and the write is logged.
    pub fn write_reg(&mut self, reg: Reg, val: u32)
        ensures
            final(self).writes@ == old(self).writes@.push(RegWrite { reg, val }),
            final(self).status == if reg == Reg::Status {
                val
            } else {
                old(self).status
            },
            final(self).guest_features == if reg == Reg::GuestFeatures {
                val
            } else {
                old(self).guest_features
            },
            final(self).queue_sel == if reg == Reg::QueueSel {
                val
            } else {
                old(self).queue_sel
            },
            final(self).queue_num == if reg == Reg::QueueNum {
                val
            } else {
                old(self).queue_num
            },
            final(self).queue_pfn == if reg == Reg::QueuePfn {
                val
            } else {
                old(self).queue_pfn
            },
            final(self).guest_page_size == if reg == Reg::GuestPageSize {
                val
            } else {
                old(self).guest_page_size
            },
            final(self).host_features == old(self).host_features,
            final(self).queue_num_max == old(self).queue_num_max,
            final(self).accepts_features == old(self).accepts_features,
    {
        match reg {
            Reg::Status => {
                self.status = val;
            },
            Reg::GuestFeatures => {
                self.guest_features = val;
            },
            Reg::QueueSel => {
                self.queue_sel = val;
            },
            Reg::QueueNum => {
                self.queue_num = val;
            },
            Reg::QueuePfn => {
                self.queue_pfn = val;
            },
            Reg::GuestPageSize => {
                self.guest_page_size = val;
            },
            Reg::HostFeatures => {},
            Reg::QueueNumMax => {},
            Reg::QueueNotify => {},
        }
        self.writes.push(RegWrite { reg, val });
    }

    /// What the driver sees when it reads the status register back: a device
    /// that rejected the negotiated features shows the `FeaturesOk` bit
    /// cleared.
    pub open spec fn spec_read_status(self) -> u32 {
        if self.accepts_features {
            self.status
        } else {
            self.status & !STATUS_FEATURES_OK
        }
    }

    /// Volatile read of the status register.
    pub fn read_status(&self) -> (r: u32)
        ensures
            r == self.spec_read_status(),
    {
        if self.accepts_features {
            self.status
        } else {
            self.status & !STATUS_FEATURES_OK
        }
    }

    /// Volatile read of the device's feature bitmap.
    pub fn read_host_features(&self) -> (r: u32)
        ensures
            r == self.host_features,
    {
        self.host_features
    }

    /// Volatile read of the largest queue size the device can take for the
    /// selected queue.
    pub fn read_queue_num_max(&self) -> (r: u32)
        ensures
            r == self.queue_num_max,
    {
        self.queue_num_max
    }
}

/// The feature subset the driver understands and writes back as the accepted
/// feature set.  This driver takes the defaults and nothing beyond them, so
/// it accepts the host bitmap as offered; the result is always a subset of
/// the host bitmap.
pub open spec fn spec_negotiate_features(host_features: u32) -> u32 {
    host_features
}

/// Selects the feature subset to write back during the handshake.
pub fn negotiate_features(host_features: u32) -> (r: u32)
    ensures
        r == spec_negotiate_features(host_features),
{
    host_features
}

/// Whatever the host offers, the negotiated feature value written back is a
/// subset of the host bitmap: no bit is accepted that was not offered.
pub proof fn lemma_negotiated_features_subset(host_features: u32)
    ensures
        spec_negotiate_features(host_features) & host_features == spec_negotiate_features(
            host_features,
        ),
        spec_negotiate_features(host_features) & !host_features == 0,
{
    let g = spec_negotiate_features(host_features);
    assert(host_features & host_features == host_features) by (bit_vector);
    assert(host_features & !host_features == 0) by (bit_vector);
}

/// The exact write log of a handshake that fails feature negotiation: after
/// the `FeaturesOk` readback fails, the one further register write is
/// `Failed` into the status register, and nothing more.
pub open spec fn rejected_writes(host_features: u32) -> Seq<RegWrite> {
    seq![
        RegWrite { reg: Reg::Status, val: 0 },
        RegWrite { reg: Reg::Status, val: STATUS_ACKNOWLEDGE },
        RegWrite { reg: Reg::Status, val: STATUS_ACKNOWLEDGE | STATUS_DRIVER },
        RegWrite { reg: Reg::GuestFeatures, val: spec_negotiate_features(host_features) },
        RegWrite {
            reg: Reg::Status,
            val: STATUS_ACKNOWLEDGE | STATUS_DRIVER | STATUS_FEATURES_OK,
        },
        RegWrite { reg: Reg::Status, val: STATUS_FAILED },
    ]
}

/// The exact write log of a handshake that negotiates features but finds the
/// device's queue too small for the driver's fixed ring size: the handshake
/// stops after selecting queue 0 and reading its maximum.
pub open spec fn capacity_failed_writes(host_features: u32) -> Seq<RegWrite> {
    seq![
        RegWrite { reg: Reg::Status, val: 0 },
        RegWrite { reg: Reg::Status, val: STATUS_ACKNOWLEDGE },
        RegWrite { reg: Reg::Status, val: STATUS_ACKNOWLEDGE | STATUS_DRIVER },
        RegWrite { reg: Reg::GuestFeatures, val: spec_negotiate_features(host_features) },
        RegWrite {
            reg: Reg::Status,
            val: STATUS_ACKNOWLEDGE | STATUS_DRIVER | STATUS_FEATURES_OK,
        },
        RegWrite { reg: Reg::QueueSel, val: 0 },
    ]
}

/// The exact write log of a successful handshake with ring size `ring_size`
/// and a queue page starting at `queue_addr`.
pub open spec fn accepted_writes(host_features: u32, ring_size: u32, queue_addr: u32) -> Seq<
    RegWrite,
> {
    seq![
        RegWrite { reg: Reg::Status, val: 0 },
        RegWrite { reg: Reg::Status, val: STATUS_ACKNOWLEDGE },
        RegWrite { reg: Reg::Status, val: STATUS_ACKNOWLEDGE | STATUS_DRIVER },
        RegWrite { reg: Reg::GuestFeatures, val: spec_negotiate_features(host_features) },
        RegWrite {
            reg: Reg::Status,
            val: STATUS_ACKNOWLEDGE | STATUS_DRIVER | STATUS_FEATURES_OK,
        },
        RegWrite { reg: Reg::QueueSel, val: 0 },
        RegWrite { reg: Reg::QueueNum, val: ring_size },
        RegWrite { reg: Reg::GuestPageSize, val: PAGE_SIZE },
        RegWrite { reg: Reg::QueuePfn, val: queue_addr / PAGE_SIZE },
        RegWrite {
            reg: Reg::Status,
            val: STATUS_ACKNOWLEDGE | STATUS_DRIVER | STATUS_FEATURES_OK | STATUS_DRIVER_OK,
        },
    ]
}

/// Brings a discovered device from reset to operational.
///
/// Resets the device, sets `Acknowledge` and `Driver`, writes back the
/// negotiated feature subset, sets `FeaturesOk` and re-reads the status: a
/// device that no longer shows `FeaturesOk` has rejected the features, the
/// driver writes `Failed` and performs no further register write.  Otherwise
/// it selects queue 0, checks that `ring_size` fits the device's maximum,
/// programs the queue size, the guest page size and the queue's page-frame
/// number, and sets `DriverOk`: the device is live and may be notified.
pub fn handshake(regs: &mut DeviceRegs, ring_size: u32, queue_addr: u32) -> (r: Result<
    (),
    InitError,
>)
    requires
        queue_addr % PAGE_SIZE == 0,
    ensures
        final(regs).host_features == old(regs).host_features,
        final(regs).queue_num_max == old(regs).queue_num_max,
        final(regs).accepts_features == old(regs).accepts_features,
        r is Ok <==> old(regs).accepts_features && ring_size <= old(regs).queue_num_max,
        r == Err::<(), InitError>(InitError::FeaturesRejected) <==> !old(regs).accepts_features,
        r == Err::<(), InitError>(InitError::RingTooLarge) <==> old(regs).accepts_features
            && ring_size > old(regs).queue_num_max,
        final(regs).guest_features == spec_negotiate_features(old(regs).host_features),
        r is Ok ==> final(regs).writes@ == old(regs).writes@ + accepted_writes(
            old(regs).host_features,
            ring_size,
            queue_addr,
        ),
        r is Ok ==> final(regs).status == (STATUS_ACKNOWLEDGE | STATUS_DRIVER
            | STATUS_FEATURES_OK | STATUS_DRIVER_OK),
        r is Ok ==> final(regs).queue_sel == 0 && final(regs).queue_num == ring_size
            && final(regs).guest_page_size == PAGE_SIZE && final(regs).queue_pfn == queue_addr
            / PAGE_SIZE,
        !old(regs).accepts_features ==> final(regs).writes@ == old(regs).writes@
            + rejected_writes(old(regs).host_features),
        !old(regs).accepts_features ==> final(regs).status == STATUS_FAILED,
        r == Err::<(), InitError>(InitError::RingTooLarge) ==> final(regs).writes@ == old(
            regs,
        ).writes@ + capacity_failed_writes(old(regs).host_features),
{
    let ghost writes0 = regs.writes@;
    // reset the device
    regs.write_reg(Reg::Status, 0);
    // the guest has noticed it
    let mut status_bits: u32 = STATUS_ACKNOWLEDGE;
    regs.write_reg(Reg::Status, status_bits);
    // and knows how to drive it
    status_bits = status_bits | STATUS_DRIVER;
    regs.write_reg(Reg::Status, status_bits);
    // negotiate: write back the subset of the device's features the driver
    // understands
    let host_features = regs.read_host_features();
    let guest_features = negotiate_features(host_features);
    regs.write_reg(Reg::GuestFeatures, guest_features);
    status_bits = status_bits | STATUS_FEATURES_OK;
    regs.write_reg(Reg::Status, status_bits);
    // re-read: a device that cleared FeaturesOk rejected the subset
    let status_ok = regs.read_status();
    if status_ok & STATUS_FEATURES_OK == 0 {
        regs.write_reg(Reg::Status, STATUS_FAILED);
        proof {
            lemma_features_ok_readback(regs.accepts_features, status_bits);
            assert(regs.writes@ =~= writes0 + rejected_writes(old(regs).host_features));
        }
        return Err(InitError::FeaturesRejected);
    }
    proof {
        lemma_features_ok_readback(regs.accepts_features, status_bits);
    }
    // device-specific setup: select queue 0 and check its capacity
    regs.write_reg(Reg::QueueSel, 0);
    let qnmax = regs.read_queue_num_max();
    if ring_size > qnmax {
        proof {
            assert(regs.writes@ =~= writes0 + capacity_failed_writes(old(regs).host_features));
        }
        return Err(InitError::RingTooLarge);
    }
    // program the queue: its size, the guest page size, and the page-frame
    // number of its zero-filled, page-aligned memory
    regs.write_reg(Reg::QueueNum, ring_size);
    regs.write_reg(Reg::GuestPageSize, PAGE_SIZE);
    regs.write_reg(Reg::QueuePfn, queue_addr / PAGE_SIZE);
    // the device is now live
    status_bits = status_bits | STATUS_DRIVER_OK;
    regs.write_reg(Reg::Status, status_bits);
    proof {
        assert(regs.writes@ =~= writes0 + accepted_writes(
            old(regs).host_features,
            ring_size,
            queue_addr,
        ));
    }
    Ok(())
}

/// After the driver set `FeaturesOk`, the readback shows the bit if and only
/// if the device accepted the features.
proof fn lemma_features_ok_readback(accepts: bool, status: u32)
    requires
        status == STATUS_ACKNOWLEDGE | STATUS_DRIVER | STATUS_FEATURES_OK,
    ensures
        accepts ==> status & STATUS_FEATURES_OK != 0,
        !accepts ==> (status & !STATUS_FEATURES_OK) & STATUS_FEATURES_OK == 0,
{
    assert(((1u32 | 2u32) | 8u32) & 8u32 != 0) by (bit_vector);
    assert((((1u32 | 2u32) | 8u32) & !8u32) & 8u32 == 0) by (bit_vector);
}

} // verus!
