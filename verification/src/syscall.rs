//! The user-space system-call stubs.
//!
//! These are the calls the demo program links against.  The kernel side of
//! each is dispatched elsewhere; the stubs here keep the call interface.

use vstd::prelude::*;

verus! {

/// Replaces the current program image.  The kernel does not implement this
/// call yet: it is accepted and ignored.
pub fn syscall_execv(path: &[u8], v: usize)
    ensures
        true,
{
    let _ = path;
    let _ = v;
}

/// Puts the calling process to sleep.  The kernel does not implement this
/// call yet: it is accepted and ignored.
pub fn syscall_sleep(tm: usize)
    ensures
        true,
{
    let _ = tm;
}

/// Reads from a block device into the buffer.  The kernel does not implement
/// this call yet: it reads nothing, leaves the buffer as it was, and reports
/// zero bytes.
pub fn syscall_block_read(bdev: usize, buffer: &mut Vec<u8>, size: u32, offset: u32) -> (r: u8)
    ensures
        r == 0,
        final(buffer)@ == old(buffer)@,
{
    let _ = bdev;
    let _ = size;
    let _ = offset;
    0
}

} // verus!
