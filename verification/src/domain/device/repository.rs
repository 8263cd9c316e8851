//! What the core asks of a store of devices, and of the store of device
//! groups when a device is registered.

use vstd::prelude::*;

use crate::domain::device::DeviceAggregate;
use crate::domain::device::DeviceView;
use crate::domain::device_group::repository::group_with_serial;
use crate::domain::device_group::repository::DeviceGroupTable;
use crate::domain::device_group::DeviceGroupAggregate;
use crate::domain::response::Error;
use crate::domain::rows::lemma_push_fresh_key;
use crate::domain::rows::lemma_unique_index;

verus! {

/// The devices of `devices` as contracts see them, one by one.
pub open spec fn device_views(devices: Seq<DeviceAggregate>) -> Seq<DeviceView> {
    devices.map_values(|device: DeviceAggregate| device@)
}

/// The serial numbers of `rows`, row by row.
pub open spec fn device_serials(rows: Seq<DeviceView>) -> Seq<Seq<char>> {
    rows.map_values(|row: DeviceView| row.serial_number)
}

/// The identities of `rows`, row by row.
pub open spec fn device_ids(rows: Seq<DeviceView>) -> Seq<i64> {
    rows.map_values(|row: DeviceView| row.device_id)
}

/// Some row of `rows` carries the serial number `serial`.
pub open spec fn has_device_serial(rows: Seq<DeviceView>, serial: Seq<char>) -> bool {
    device_serials(rows).contains(serial)
}

/// The first row of `rows` with the serial number `serial`.
pub open spec fn device_with_serial(rows: Seq<DeviceView>, serial: Seq<char>) -> Option<
    DeviceView,
> {
    match device_serials(rows).index_of_first(serial) {
        Some(i) => Some(rows[i]),
        None => None,
    }
}

/// The devices that belong to the group with the serial number `group`.
pub open spec fn in_group(group: Seq<char>) -> spec_fn(DeviceView) -> bool {
    |row: DeviceView| row.device_group_serial_number == group
}

/// The rows of `rows` that belong to the group `group`, in the order of
/// `rows`.
pub open spec fn devices_of_group(rows: Seq<DeviceView>, group: Seq<char>) -> Seq<DeviceView> {
    rows.filter(in_group(group))
}

/// `device` with the identity `id` in place of its own.
pub open spec fn device_identified(device: DeviceView, id: i64) -> DeviceView {
    DeviceView { device_id: id, ..device }
}

/// What adding `device` answers on a table that holds `rows`.
pub open spec fn device_add_outcome(rows: Seq<DeviceView>, device: DeviceView) -> Result<
    (),
    Error,
> {
    if has_device_serial(rows, device.serial_number) {
        Err(Error::DuplicateKeyError)
    } else {
        Ok(())
    }
}

/// The rows of a table after `device` was added to `rows` while the
/// identity counter stood at `next_id`.
pub open spec fn devices_after_add(rows: Seq<DeviceView>, next_id: i64, device: DeviceView) -> Seq<
    DeviceView,
> {
    if has_device_serial(rows, device.serial_number) {
        rows
    } else {
        rows.push(device_identified(device, next_id))
    }
}

/// What updating to `device` answers on a table that holds `rows`.
pub open spec fn device_update_outcome(rows: Seq<DeviceView>, device: DeviceView) -> Result<
    (),
    Error,
> {
    if device_ids(rows).contains(device.device_id) {
        Ok(())
    } else {
        Err(Error::NotFound)
    }
}

/// The rows of a table after the first row of `rows` with the identity of
/// `device` was replaced by `device`.
pub open spec fn devices_after_update(rows: Seq<DeviceView>, device: DeviceView) -> Seq<
    DeviceView,
> {
    match device_ids(rows).index_of_first(device.device_id) {
        Some(i) => rows.update(i, device),
        None => rows,
    }
}

/// Every row of `rows` with the identity of `device` has its serial number
/// too: putting `device` in the place of such a row changes no serial
/// number.
pub open spec fn keeps_serial(rows: Seq<DeviceView>, device: DeviceView) -> bool {
    forall|i: int|
        0 <= i < rows.len() && (#[trigger] rows[i]).device_id == device.device_id
            ==> rows[i].serial_number == device.serial_number
}

/// No two rows share a serial number, no two share an identity, and every
/// identity was handed out by the counter that now stands at `next_id`.
pub open spec fn device_table_wf(rows: Seq<DeviceView>, next_id: i64) -> bool {
    &&& 0 <= next_id
    &&& device_serials(rows).no_duplicates()
    &&& device_ids(rows).no_duplicates()
    &&& forall|i: int| 0 <= i < rows.len() ==> 0 <= (#[trigger] rows[i]).device_id < next_id
}

/// A table of devices, as the contracts of the capabilities below see it.
pub trait DeviceTable {
    /// The stored devices, in the order in which the store scans them.
    spec fn device_rows(&self) -> Seq<DeviceView>;

    /// The identity that the next device to be added will claim.
    spec fn next_device_id(&self) -> i64;
}

/// The capability to look devices up.
pub trait TDeviceQuery: DeviceTable {
    /// A copy of the device with the serial number `serial_number`.
    fn get(&self, serial_number: &str) -> (r: Result<DeviceAggregate, Error>)
        ensures
            match device_with_serial(self.device_rows(), serial_number@) {
                Some(row) => r matches Ok(device) && device@ == row,
                None => r matches Err(e) && e == Error::NotFound,
            },
    ;

    /// Copies of the devices of the group `device_group_serial_number`, in
    /// the order in which the store scans them.
    fn list_by_group(&self, device_group_serial_number: &str) -> (r: Result<
        Vec<DeviceAggregate>,
        Error,
    >)
        ensures
            r matches Ok(devices) && device_views(devices@) == devices_of_group(
                self.device_rows(),
                device_group_serial_number@,
            ),
    ;
}

/// The capability to store devices and to replace stored ones. Neither
/// touches the device groups.
pub trait TDevicePersist: DeviceTable + DeviceGroupTable {
    /// Claims the next identity for `device`, then stores it unless a
    /// device with its serial number is stored already. The identity is
    /// spent either way.
    fn add(&mut self, device: &mut DeviceAggregate) -> (r: Result<(), Error>)
        requires
            old(self).next_device_id() < i64::MAX,
        ensures
            final(self).next_device_id() == old(self).next_device_id() + 1,
            final(device)@ == device_identified(old(device)@, old(self).next_device_id()),
            r == device_add_outcome(old(self).device_rows(), old(device)@),
            final(self).device_rows() == devices_after_add(
                old(self).device_rows(),
                old(self).next_device_id(),
                old(device)@,
            ),
            device_table_wf(old(self).device_rows(), old(self).next_device_id())
                ==> device_table_wf(final(self).device_rows(), final(self).next_device_id()),
            final(self).group_rows() == old(self).group_rows(),
            final(self).next_group_id() == old(self).next_group_id(),
    ;

    /// Puts `device` in the place of the stored device with its identity.
    fn update(&mut self, device: &mut DeviceAggregate) -> (r: Result<(), Error>)
        ensures
            final(self).next_device_id() == old(self).next_device_id(),
            final(device)@ == old(device)@,
            r == device_update_outcome(old(self).device_rows(), old(device)@),
            final(self).device_rows() == devices_after_update(
                old(self).device_rows(),
                old(device)@,
            ),
            device_table_wf(old(self).device_rows(), old(self).next_device_id()) && keeps_serial(
                old(self).device_rows(),
                old(device)@,
            ) ==> device_table_wf(final(self).device_rows(), final(self).next_device_id()),
            final(self).group_rows() == old(self).group_rows(),
            final(self).next_group_id() == old(self).next_group_id(),
    ;
}

/// The capability to look device groups up.
pub trait TDeviceGroupQuery: DeviceGroupTable {
    /// A copy of the group with the serial number `device_group_serial`.
    fn get(&self, device_group_serial: &str) -> (r: Result<DeviceGroupAggregate, Error>)
        ensures
            match group_with_serial(self.group_rows(), device_group_serial@) {
                Some(row) => r matches Ok(group) && group@ == row,
                None => r matches Err(e) && e == Error::NotFound,
            },
    ;
}

/// Adding to a well-formed table leaves a well-formed table: in no state
/// do two devices share a serial number or an identity.
pub proof fn lemma_device_add_keeps_wf(rows: Seq<DeviceView>, next_id: i64, device: DeviceView)
    requires
        device_table_wf(rows, next_id),
        next_id < i64::MAX,
    ensures
        device_table_wf(devices_after_add(rows, next_id, device), (next_id + 1) as i64),
{
    let after = devices_after_add(rows, next_id, device);
    if !has_device_serial(rows, device.serial_number) {
        let added = device_identified(device, next_id);
        assert(device_serials(after) =~= device_serials(rows).push(added.serial_number));
        assert(device_ids(after) =~= device_ids(rows).push(next_id));
        assert forall|i: int| 0 <= i < rows.len() implies device_ids(rows)[i] != next_id by {
            assert(rows[i].device_id < next_id);
        }
        lemma_push_fresh_key(device_serials(rows), added.serial_number);
        lemma_push_fresh_key(device_ids(rows), next_id);
    }
}

/// Of two devices with one serial number added one after the other, the
/// second is refused with `DuplicateKeyError` and leaves the table as the
/// first left it; the first is stored exactly if the serial number was free.
pub proof fn lemma_device_added_twice(
    rows: Seq<DeviceView>,
    next_id: i64,
    first: DeviceView,
    second: DeviceView,
)
    requires
        first.serial_number == second.serial_number,
        next_id < i64::MAX,
    ensures
        device_add_outcome(rows, first) is Ok <==> !has_device_serial(rows, first.serial_number),
        device_add_outcome(devices_after_add(rows, next_id, first), second) == Err::<(), Error>(
            Error::DuplicateKeyError,
        ),
        devices_after_add(devices_after_add(rows, next_id, first), (next_id + 1) as i64, second)
            == devices_after_add(rows, next_id, first),
{
    let after = devices_after_add(rows, next_id, first);
    if !has_device_serial(rows, first.serial_number) {
        assert(device_serials(after)[rows.len() as int] == first.serial_number);
    }
}

/// Updating a well-formed table to a device that kept the serial number
/// under which it is stored leaves a well-formed table.
pub proof fn lemma_device_update_keeps_wf(rows: Seq<DeviceView>, next_id: i64, device: DeviceView)
    requires
        device_table_wf(rows, next_id),
        keeps_serial(rows, device),
    ensures
        device_table_wf(devices_after_update(rows, device), next_id),
{
    let after = devices_after_update(rows, device);
    device_ids(rows).index_of_first_ensures(device.device_id);
    match device_ids(rows).index_of_first(device.device_id) {
        Some(i) => {
            assert(rows[i].device_id == device.device_id);
            assert(device_serials(after) =~= device_serials(rows));
            assert(device_ids(after) =~= device_ids(rows));
        },
        None => {},
    }
}

/// In a well-formed table, a device that was looked up by its serial number
/// and is handed back with its identity takes the place of the very row
/// that was looked up.
pub proof fn lemma_update_replaces_loaded_row(
    rows: Seq<DeviceView>,
    next_id: i64,
    serial: Seq<char>,
    device: DeviceView,
)
    requires
        device_table_wf(rows, next_id),
        device_with_serial(rows, serial) matches Some(row) && row.device_id == device.device_id,
    ensures
        device_update_outcome(rows, device) is Ok,
        device_serials(rows).index_of_first(serial) matches Some(i) && devices_after_update(
            rows,
            device,
        ) == rows.update(i, device),
{
    device_serials(rows).index_of_first_ensures(serial);
    let i = device_serials(rows).index_of_first(serial).unwrap();
    assert(device_ids(rows)[i] == device.device_id);
    lemma_unique_index(device_ids(rows), i);
}

} // verus!
