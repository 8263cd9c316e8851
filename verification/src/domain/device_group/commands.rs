//! Commands that create a device group.

use vstd::prelude::*;

verus! {

/// Registers a device group under its serial number.
pub struct RegisterDeviceGroup {
    pub device_group_serial: String,
}

} // verus!
