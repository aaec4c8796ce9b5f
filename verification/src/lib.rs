//! A verified model of a VirtIO transport queue and the GPU command protocol
//! built on top of it: descriptor-ring management, the device initialization
//! handshake, the request-memory ownership protocol across the driver/device
//! boundary, and the fixed command sequence that establishes and refreshes a
//! display surface.

pub mod device;
pub mod gpu;
pub mod handshake;
pub mod mem;
pub mod modmath;
pub mod ring;
pub mod syscall;
pub mod transport;

use vstd::prelude::*;

verus! {

/// Number of entries in every ring of a queue, fixed at build time and shared
/// with the device.
pub const VIRTIO_RING_SIZE: u16 = 128;

} // verus!
