//! The device group aggregate. A group is created once and never changes.

pub mod commands;
pub mod repository;

use vstd::prelude::*;

use crate::domain::device_group::commands::RegisterDeviceGroup;
use crate::domain::timestamp::Timestamp;

verus! {

/// A device group, as contracts see it.
pub struct DeviceGroupView {
    pub device_group_id: i64,
    pub serial_number: Seq<char>,
    pub created_at: Timestamp,
}

/// The group that `cmd` registers at `created_at`, as it is before the
/// store has given it an identity.
pub open spec fn registered_group(
    cmd: RegisterDeviceGroup,
    created_at: Timestamp,
) -> DeviceGroupView {
    DeviceGroupView { device_group_id: 0, serial_number: cmd.device_group_serial@, created_at }
}

/// A device group: its identity in the store and the serial number that
/// devices name to join it.
#[derive(Debug)]
pub struct DeviceGroupAggregate {
    pub device_group_id: i64,
    pub serial_number: String,
    pub created_at: Timestamp,
}

impl View for DeviceGroupAggregate {
    type V = DeviceGroupView;

    open spec fn view(&self) -> DeviceGroupView {
        DeviceGroupView {
            device_group_id: self.device_group_id,
            serial_number: self.serial_number@,
            created_at: self.created_at,
        }
    }
}

impl DeviceGroupAggregate {
    /// A group that has just been registered, with the clock read for its
    /// creation time. The store gives it its identity later.
    pub fn new(cmd: RegisterDeviceGroup) -> (group: Self)
        ensures
            group@ == registered_group(cmd, group@.created_at),
    {
        Self::create(cmd, Timestamp::now())
    }

    /// A group registered at `created_at`, without an identity yet.
    pub fn create(cmd: RegisterDeviceGroup, created_at: Timestamp) -> (group: Self)
        ensures
            group@ == registered_group(cmd, created_at),
    {
        DeviceGroupAggregate {
            device_group_id: 0,
            serial_number: cmd.device_group_serial,
            created_at,
        }
    }
}

impl Default for DeviceGroupAggregate {
    /// A group without identity or serial number, created at the start of
    /// the time line.
    fn default() -> (group: Self)
        ensures
            group@ == (DeviceGroupView {
                device_group_id: 0,
                serial_number: Seq::empty(),
                created_at: Timestamp { secs: 0, nanos: 0 },
            }),
    {
        DeviceGroupAggregate {
            device_group_id: 0,
            serial_number: String::new(),
            created_at: Timestamp::default(),
        }
    }
}

impl Clone for DeviceGroupAggregate {
    fn clone(&self) -> (copy: Self)
        ensures
            copy@ == self@,
    {
        DeviceGroupAggregate {
            device_group_id: self.device_group_id,
            serial_number: self.serial_number.clone(),
            created_at: self.created_at,
        }
    }
}

} // verus!
