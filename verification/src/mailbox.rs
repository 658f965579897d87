//! Address arithmetic of the firmware mailbox.
//!
//! The mailbox ioctls themselves (memory allocation, locking, code
//! execution on the coprocessor) are process plumbing and stay in the
//! unverified binary; what is kept here is the address translation the
//! replies need.

use vstd::prelude::*;

verus! {

/// Translates a bus address the firmware hands back into the physical
/// address the host maps: the top two (cache-aliasing) bits are cleared.
pub fn bus_to_phys(addr: u32) -> (r: u32)
    ensures
        r == addr & 0x3FFF_FFFF,
{
    proof {
        assert(addr & !0xC000_0000u32 == addr & 0x3FFF_FFFF) by (bit_vector);
    }
    addr & !0xC000_0000
}

} // verus!
