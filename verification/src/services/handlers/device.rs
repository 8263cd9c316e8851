//! The use cases around devices: registration, storing temperature batches,
//! and the two average-temperature queries.

use vstd::prelude::*;

use crate::domain::device::commands::{RegisterDevice, SaveDeviceTemperature};
use crate::domain::device::query::{
    GetDeviceAverageTemperatureDuringPeriodQuery,
    GetDeviceGroupAverageTemperatureDuringPeriodQuery,
};
use crate::domain::device::repository::{
    device_identified, device_ids, device_serials, device_table_wf, device_views,
    device_with_serial, devices_after_update, devices_of_group, has_device_serial, keeps_serial,
    DeviceTable, TDeviceGroupQuery, TDevicePersist, TDeviceQuery,
};
use crate::domain::device::{
    average_in_window, decoded_batch, is_hex_payload, registered_device, AverageTemperature,
    DeviceAggregate, DeviceView,
};
use crate::domain::device_group::repository::{group_with_serial, DeviceGroupTable};
use crate::domain::device_group::DeviceGroupAggregate;
use crate::domain::response::{Error, Response};
use crate::domain::timestamp::Timestamp;
use crate::services::handlers::{CommandHandler, QueryHandler};

verus! {

/// The device `row` after the batch of `cmd` was appended to its history.
pub open spec fn with_saved_batch(row: DeviceView, cmd: SaveDeviceTemperature) -> DeviceView {
    DeviceView {
        temperatures: row.temperatures + decoded_batch(
            row.device_id,
            cmd.registered_at,
            cmd.interval,
            cmd.temperatures@,
        ),
        ..row
    }
}

impl<'a, R: TDevicePersist + TDeviceGroupQuery> CommandHandler<RegisterDevice, &'a mut R> {
    /// Registers the device, created now, under its group. Without the
    /// group nothing happens: the answer is `NotFound`, no device is stored
    /// and no identity is spent. With it, a serial number that is already
    /// taken is refused with `DuplicateKeyError`, and the identity that
    /// was claimed for the device is spent either way. The groups are left
    /// alone.
    pub fn handle(self) -> (r: Result<(DeviceAggregate, DeviceGroupAggregate), Error>)
        requires
            group_with_serial(old(self.repo).group_rows(), self.command.device_group_serial@)
                is Some ==> old(self.repo).next_device_id() < i64::MAX,
        ensures
            ({
                let rows = old(self.repo).device_rows();
                let next_id = old(self.repo).next_device_id();
                let taken = has_device_serial(rows, self.command.serial_number@);
                match group_with_serial(
                    old(self.repo).group_rows(),
                    self.command.device_group_serial@,
                ) {
                    None => {
                        &&& r matches Err(e) && e == Error::NotFound
                        &&& final(self.repo).device_rows() == rows
                        &&& final(self.repo).next_device_id() == next_id
                    },
                    Some(group_row) => {
                        &&& final(self.repo).next_device_id() == next_id + 1
                        &&& match r {
                            Ok(pair) => {
                                &&& !taken
                                &&& pair.0@ == device_identified(
                                    registered_device(self.command, pair.0@.created_at),
                                    next_id,
                                )
                                &&& pair.1@ == group_row
                                &&& final(self.repo).device_rows() == rows.push(pair.0@)
                            },
                            Err(e) => {
                                &&& taken
                                &&& e == Error::DuplicateKeyError
                                &&& final(self.repo).device_rows() == rows
                            },
                        }
                    },
                }
            }),
            device_table_wf(old(self.repo).device_rows(), old(self.repo).next_device_id())
                ==> device_table_wf(
                final(self.repo).device_rows(),
                final(self.repo).next_device_id(),
            ),
            final(self.repo).group_rows() == old(self.repo).group_rows(),
            final(self.repo).next_group_id() == old(self.repo).next_group_id(),
    {
        let group = match self.repo.get(self.command.device_group_serial.as_str()) {
            Ok(group) => group,
            Err(e) => {
                return Err(e);
            },
        };
        let mut aggregate = DeviceAggregate::new(self.command);
        match self.repo.add(&mut aggregate) {
            Ok(()) => Ok((aggregate, group)),
            Err(e) => Err(e),
        }
    }

    /// Registers the device as created at `now`, and is otherwise `handle`.
    pub fn handle_at(self, now: Timestamp) -> (r: Result<
        (DeviceAggregate, DeviceGroupAggregate),
        Error,
    >)
        requires
            group_with_serial(old(self.repo).group_rows(), self.command.device_group_serial@)
                is Some ==> old(self.repo).next_device_id() < i64::MAX,
        ensures
            ({
                let rows = old(self.repo).device_rows();
                let next_id = old(self.repo).next_device_id();
                let taken = has_device_serial(rows, self.command.serial_number@);
                match group_with_serial(
                    old(self.repo).group_rows(),
                    self.command.device_group_serial@,
                ) {
                    None => {
                        &&& r matches Err(e) && e == Error::NotFound
                        &&& final(self.repo).device_rows() == rows
                        &&& final(self.repo).next_device_id() == next_id
                    },
                    Some(group_row) => {
                        &&& final(self.repo).next_device_id() == next_id + 1
                        &&& match r {
                            Ok(pair) => {
                                &&& !taken
                                &&& pair.0@ == device_identified(
                                    registered_device(self.command, now),
                                    next_id,
                                )
                                &&& pair.1@ == group_row
                                &&& final(self.repo).device_rows() == rows.push(pair.0@)
                            },
                            Err(e) => {
                                &&& taken
                                &&& e == Error::DuplicateKeyError
                                &&& final(self.repo).device_rows() == rows
                            },
                        }
                    },
                }
            }),
            device_table_wf(old(self.repo).device_rows(), old(self.repo).next_device_id())
                ==> device_table_wf(
                final(self.repo).device_rows(),
                final(self.repo).next_device_id(),
            ),
            final(self.repo).group_rows() == old(self.repo).group_rows(),
            final(self.repo).next_group_id() == old(self.repo).next_group_id(),
    {
        let group = match self.repo.get(self.command.device_group_serial.as_str()) {
            Ok(group) => group,
            Err(e) => {
                return Err(e);
            },
        };
        let mut aggregate = DeviceAggregate::create(self.command, now);
        match self.repo.add(&mut aggregate) {
            Ok(()) => Ok((aggregate, group)),
            Err(e) => Err(e),
        }
    }
}

impl<'a, R: TDevicePersist + TDeviceQuery> CommandHandler<SaveDeviceTemperature, &'a mut R> {
    /// Appends the batch of the command to the history of its device.
    /// Without the device the answer is `NotFound`, with a malformed
    /// payload `ConversionFailed`; in both cases the store stays as it was.
    /// The identity counter and the groups are left alone in every case.
    pub fn handle(self) -> (r: Result<Response, Error>)
        requires
            self.command.schedulable(),
        ensures
            ({
                let rows = old(self.repo).device_rows();
                match device_with_serial(rows, self.command.serial_number@) {
                    None => {
                        &&& r matches Err(e) && e == Error::NotFound
                        &&& final(self.repo).device_rows() == rows
                    },
                    Some(row) => if is_hex_payload(self.command.temperatures@) {
                        &&& r matches Ok(done) && done == Response::Empty
                        &&& final(self.repo).device_rows() == devices_after_update(
                            rows,
                            with_saved_batch(row, self.command),
                        )
                    } else {
                        &&& r matches Err(e) && e == Error::ConversionFailed
                        &&& final(self.repo).device_rows() == rows
                    },
                }
            }),
            final(self.repo).next_device_id() == old(self.repo).next_device_id(),
            device_table_wf(old(self.repo).device_rows(), old(self.repo).next_device_id())
                ==> device_table_wf(
                final(self.repo).device_rows(),
                final(self.repo).next_device_id(),
            ),
            final(self.repo).group_rows() == old(self.repo).group_rows(),
            final(self.repo).next_group_id() == old(self.repo).next_group_id(),
    {
        let ghost rows = self.repo.device_rows();
        let mut aggregate = match self.repo.get(self.command.serial_number.as_str()) {
            Ok(aggregate) => aggregate,
            Err(e) => {
                return Err(e);
            },
        };
        let ghost at = device_serials(rows).index_of_first(self.command.serial_number@).unwrap();
        proof {
            device_serials(rows).index_of_first_ensures(self.command.serial_number@);
            assert(device_ids(rows)[at] == aggregate@.device_id);
            assert(device_serials(rows)[at] == aggregate@.serial_number);
        }
        match aggregate.save_temperatures(self.command) {
            Ok(()) => {},
            Err(e) => {
                return Err(e);
            },
        }
        proof {
            if device_table_wf(rows, self.repo.next_device_id()) {
                assert forall|j: int|
                    0 <= j < rows.len() && (#[trigger] rows[j]).device_id
                        == aggregate@.device_id implies rows[j].serial_number
                    == aggregate@.serial_number by {
                    assert(device_ids(rows)[j] == device_ids(rows)[at]);
                }
                assert(keeps_serial(rows, aggregate@));
            }
        }
        match self.repo.update(&mut aggregate) {
            Ok(()) => Ok(Response::from(())),
            Err(e) => Err(e),
        }
    }
}

impl<'a, R: TDeviceQuery> QueryHandler<GetDeviceAverageTemperatureDuringPeriodQuery, &'a R> {
    /// The device of the query and the mean of its readings in the window
    /// of the query, `None` where the window holds no reading.
    pub fn handle(self) -> (r: Result<(DeviceAggregate, Option<AverageTemperature>), Error>)
        ensures
            match device_with_serial(self.repo.device_rows(), self.query.serial_number@) {
                None => r matches Err(e) && e == Error::NotFound,
                Some(row) => {
                    &&& r matches Ok(pair) && pair.0@ == row && pair.1 == average_in_window(
                        row.temperatures,
                        self.query.start_date,
                        self.query.end_date,
                    )
                },
            },
    {
        let aggregate = match self.repo.get(self.query.serial_number.as_str()) {
            Ok(aggregate) => aggregate,
            Err(e) => {
                return Err(e);
            },
        };
        let average = aggregate.get_average_temperature_during_period(
            self.query.start_date,
            self.query.end_date,
        );
        Ok((aggregate, average))
    }
}

impl<'a, R: TDeviceQuery> QueryHandler<GetDeviceGroupAverageTemperatureDuringPeriodQuery, &'a R> {
    /// Every device of the group of the query, in the order in which the
    /// store scans them, each with the mean of its readings in the window
    /// of the query. A group without devices, stored or not, gives an empty
    /// list.
    pub fn handle(self) -> (r: Result<Vec<(DeviceAggregate, Option<AverageTemperature>)>, Error>)
        ensures
            r matches Ok(list) && ({
                let rows = devices_of_group(
                    self.repo.device_rows(),
                    self.query.device_group_serial@,
                );
                &&& list@.len() == rows.len()
                &&& forall|i: int|
                    0 <= i < rows.len() ==> {
                        &&& (#[trigger] list@[i]).0@ == rows[i]
                        &&& list@[i].1 == average_in_window(
                            rows[i].temperatures,
                            self.query.start_date,
                            self.query.end_date,
                        )
                    }
            }),
    {
        let aggregates = match self.repo.list_by_group(self.query.device_group_serial.as_str()) {
            Ok(aggregates) => aggregates,
            Err(e) => {
                return Err(e);
            },
        };
        let ghost rows = device_views(aggregates@);
        let mut list: Vec<(DeviceAggregate, Option<AverageTemperature>)> = Vec::new();
        for aggregate in it: aggregates
            invariant
                rows == device_views(it.seq()),
                list@.len() == it.index(),
                forall|i: int|
                    0 <= i < list@.len() ==> {
                        &&& (#[trigger] list@[i]).0@ == rows[i]
                        &&& list@[i].1 == average_in_window(
                            rows[i].temperatures,
                            self.query.start_date,
                            self.query.end_date,
                        )
                    },
        {
            let average = aggregate.get_average_temperature_during_period(
                self.query.start_date,
                self.query.end_date,
            );
            list.push((aggregate, average));
        }
        Ok(list)
    }
}

} // verus!
