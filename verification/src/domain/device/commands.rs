//! Commands that create or change a device.

use vstd::prelude::*;

use crate::domain::timestamp::Timestamp;

verus! {

/// Registers a device under a device group that already exists.
pub struct RegisterDevice {
    pub serial_number: String,
    pub device_group_serial: String,
}

/// Stores one batch of temperature readings for a device.
///
/// `temperatures` holds one reading per four hexadecimal digits. The first
/// reading was taken at `registered_at`, each further one `interval` seconds
/// after the one before it.
pub struct SaveDeviceTemperature {
    pub serial_number: String,
    pub interval: i64,
    pub temperatures: String,
    pub registered_at: Timestamp,
}

} // verus!
