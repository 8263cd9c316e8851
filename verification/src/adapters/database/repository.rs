//! The in-memory store as the capabilities that the handlers ask for.

use vstd::prelude::*;

use crate::adapters::database::mock_db::MockDb;
use crate::domain::device::repository::TDeviceGroupQuery;
use crate::domain::device::repository::TDevicePersist;
use crate::domain::device::repository::TDeviceQuery;
use crate::domain::device::DeviceAggregate;
use crate::domain::device_group::repository::TDeviceGroupPersist;
use crate::domain::device_group::DeviceGroupAggregate;
use crate::domain::response::Error;

verus! {

impl TDeviceGroupPersist for MockDb {
    fn add(&mut self, device: &mut DeviceGroupAggregate) -> (r: Result<(), Error>) {
        self.add_device_group(device)
    }
}

impl TDeviceGroupQuery for MockDb {
    fn get(&self, device_group_serial: &str) -> (r: Result<DeviceGroupAggregate, Error>) {
        self.get_device_group(device_group_serial)
    }
}

impl TDevicePersist for MockDb {
    fn add(&mut self, device: &mut DeviceAggregate) -> (r: Result<(), Error>) {
        self.add_device(device)
    }

    fn update(&mut self, device: &mut DeviceAggregate) -> (r: Result<(), Error>) {
        self.update_device(device)
    }
}

impl TDeviceQuery for MockDb {
    fn get(&self, serial_number: &str) -> (r: Result<DeviceAggregate, Error>) {
        self.get_device(serial_number)
    }

    fn list_by_group(&self, device_group_serial_number: &str) -> (r: Result<
        Vec<DeviceAggregate>,
        Error,
    >) {
        Ok(self.list_devices_by_group(device_group_serial_number))
    }
}

} // verus!
