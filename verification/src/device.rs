//! Identity of a tracked hardware device node.
//!
//! The device layer that opens and drives the kernel device node is an
//! unverified collaborator; this record is the plain identity it shares
//! with callers.

use vstd::prelude::*;

verus! {

/// Vendor and product identity of a device, with the path of the device
/// node it was opened from.
#[derive(Clone, Debug)]
pub struct DeviceInfo {
    pub vendor_id: u16,
    pub product_id: u16,
    pub device_path: String,
}

} // verus!
