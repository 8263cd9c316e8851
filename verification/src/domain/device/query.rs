//! Questions about the temperatures that devices have reported.

use vstd::prelude::*;

use crate::domain::timestamp::Timestamp;

verus! {

/// Asks for the average temperature of one device between two instants,
/// both included.
pub struct GetDeviceAverageTemperatureDuringPeriodQuery {
    pub serial_number: String,
    pub start_date: Timestamp,
    pub end_date: Timestamp,
}

/// Asks for the average temperature of every device of one group between
/// two instants, both included.
pub struct GetDeviceGroupAverageTemperatureDuringPeriodQuery {
    pub device_group_serial: String,
    pub start_date: Timestamp,
    pub end_date: Timestamp,
}

} // verus!
