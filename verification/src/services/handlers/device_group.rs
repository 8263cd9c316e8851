//! The use case that registers a device group.

use vstd::prelude::*;

use crate::domain::device::repository::DeviceTable;
use crate::domain::device_group::commands::RegisterDeviceGroup;
use crate::domain::device_group::registered_group;
use crate::domain::device_group::repository::{
    group_identified, group_table_wf, has_group_serial, DeviceGroupTable, TDeviceGroupPersist,
};
use crate::domain::device_group::DeviceGroupAggregate;
use crate::domain::response::Error;
use crate::domain::timestamp::Timestamp;
use crate::services::handlers::CommandHandler;

verus! {

impl<'a, R: TDeviceGroupPersist> CommandHandler<RegisterDeviceGroup, &'a mut R> {
    /// Registers the group, created now. A serial number that is already
    /// taken is refused with `DuplicateKeyError`; the identity that was
    /// claimed for the group is spent either way. The devices are left
    /// alone.
    pub fn handle(self) -> (r: Result<DeviceGroupAggregate, Error>)
        requires
            old(self.repo).next_group_id() < i64::MAX,
        ensures
            ({
                let rows = old(self.repo).group_rows();
                let taken = has_group_serial(rows, self.command.device_group_serial@);
                match r {
                    Ok(group) => {
                        &&& !taken
                        &&& group@ == group_identified(
                            registered_group(self.command, group@.created_at),
                            old(self.repo).next_group_id(),
                        )
                        &&& final(self.repo).group_rows() == rows.push(group@)
                    },
                    Err(e) => {
                        &&& taken
                        &&& e == Error::DuplicateKeyError
                        &&& final(self.repo).group_rows() == rows
                    },
                }
            }),
            final(self.repo).next_group_id() == old(self.repo).next_group_id() + 1,
            group_table_wf(old(self.repo).group_rows(), old(self.repo).next_group_id())
                ==> group_table_wf(final(self.repo).group_rows(), final(self.repo).next_group_id()),
            final(self.repo).device_rows() == old(self.repo).device_rows(),
            final(self.repo).next_device_id() == old(self.repo).next_device_id(),
    {
        let mut aggregate = DeviceGroupAggregate::new(self.command);
        match self.repo.add(&mut aggregate) {
            Ok(()) => Ok(aggregate),
            Err(e) => Err(e),
        }
    }

    /// Registers the group as created at `now`, and is otherwise `handle`.
    pub fn handle_at(self, now: Timestamp) -> (r: Result<DeviceGroupAggregate, Error>)
        requires
            old(self.repo).next_group_id() < i64::MAX,
        ensures
            ({
                let rows = old(self.repo).group_rows();
                let taken = has_group_serial(rows, self.command.device_group_serial@);
                match r {
                    Ok(group) => {
                        &&& !taken
                        &&& group@ == group_identified(
                            registered_group(self.command, now),
                            old(self.repo).next_group_id(),
                        )
                        &&& final(self.repo).group_rows() == rows.push(group@)
                    },
                    Err(e) => {
                        &&& taken
                        &&& e == Error::DuplicateKeyError
                        &&& final(self.repo).group_rows() == rows
                    },
                }
            }),
            final(self.repo).next_group_id() == old(self.repo).next_group_id() + 1,
            group_table_wf(old(self.repo).group_rows(), old(self.repo).next_group_id())
                ==> group_table_wf(final(self.repo).group_rows(), final(self.repo).next_group_id()),
            final(self.repo).device_rows() == old(self.repo).device_rows(),
            final(self.repo).next_device_id() == old(self.repo).next_device_id(),
    {
        let mut aggregate = DeviceGroupAggregate::create(self.command, now);
        match self.repo.add(&mut aggregate) {
            Ok(()) => Ok(aggregate),
            Err(e) => Err(e),
        }
    }
}

} // verus!
