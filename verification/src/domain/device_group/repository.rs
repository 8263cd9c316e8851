//! What the core asks of a store of device groups.

use vstd::prelude::*;

use crate::domain::device::repository::DeviceTable;
use crate::domain::device_group::DeviceGroupAggregate;
use crate::domain::device_group::DeviceGroupView;
use crate::domain::response::Error;
use crate::domain::rows::lemma_push_fresh_key;

verus! {

/// The device groups of `groups` as contracts see them, one by one.
pub open spec fn group_views(groups: Seq<DeviceGroupAggregate>) -> Seq<DeviceGroupView> {
    groups.map_values(|group: DeviceGroupAggregate| group@)
}

/// The serial numbers of `rows`, row by row.
pub open spec fn group_serials(rows: Seq<DeviceGroupView>) -> Seq<Seq<char>> {
    rows.map_values(|row: DeviceGroupView| row.serial_number)
}

/// The identities of `rows`, row by row.
pub open spec fn group_ids(rows: Seq<DeviceGroupView>) -> Seq<i64> {
    rows.map_values(|row: DeviceGroupView| row.device_group_id)
}

/// Some row of `rows` carries the serial number `serial`.
pub open spec fn has_group_serial(rows: Seq<DeviceGroupView>, serial: Seq<char>) -> bool {
    group_serials(rows).contains(serial)
}

/// The first row of `rows` with the serial number `serial`.
pub open spec fn group_with_serial(rows: Seq<DeviceGroupView>, serial: Seq<char>) -> Option<
    DeviceGroupView,
> {
    match group_serials(rows).index_of_first(serial) {
        Some(i) => Some(rows[i]),
        None => None,
    }
}

/// `group` with the identity `id` in place of its own.
pub open spec fn group_identified(group: DeviceGroupView, id: i64) -> DeviceGroupView {
    DeviceGroupView { device_group_id: id, ..group }
}

/// What adding `group` answers on a table that holds `rows`.
pub open spec fn group_add_outcome(rows: Seq<DeviceGroupView>, group: DeviceGroupView) -> Result<
    (),
    Error,
> {
    if has_group_serial(rows, group.serial_number) {
        Err(Error::DuplicateKeyError)
    } else {
        Ok(())
    }
}

/// The rows of a table after `group` was added to `rows` while the identity
/// counter stood at `next_id`.
pub open spec fn groups_after_add(
    rows: Seq<DeviceGroupView>,
    next_id: i64,
    group: DeviceGroupView,
) -> Seq<DeviceGroupView> {
    if has_group_serial(rows, group.serial_number) {
        rows
    } else {
        rows.push(group_identified(group, next_id))
    }
}

/// No two rows share a serial number, no two share an identity, and every
/// identity was handed out by the counter that now stands at `next_id`.
pub open spec fn group_table_wf(rows: Seq<DeviceGroupView>, next_id: i64) -> bool {
    &&& 0 <= next_id
    &&& group_serials(rows).no_duplicates()
    &&& group_ids(rows).no_duplicates()
    &&& forall|i: int| 0 <= i < rows.len() ==> 0 <= (#[trigger] rows[i]).device_group_id < next_id
}

/// A table of device groups, as the contracts of the capabilities below
/// see it.
pub trait DeviceGroupTable {
    /// The stored groups, in the order in which the store scans them.
    spec fn group_rows(&self) -> Seq<DeviceGroupView>;

    /// The identity that the next group to be added will claim.
    spec fn next_group_id(&self) -> i64;
}

/// The capability to store device groups. It does not touch the devices.
pub trait TDeviceGroupPersist: DeviceGroupTable + DeviceTable {
    /// Claims the next identity for `device`, then stores it unless a group
    /// with its serial number is stored already. The identity is spent
    /// either way.
    fn add(&mut self, device: &mut DeviceGroupAggregate) -> (r: Result<(), Error>)
        requires
            old(self).next_group_id() < i64::MAX,
        ensures
            final(self).next_group_id() == old(self).next_group_id() + 1,
            final(device)@ == group_identified(old(device)@, old(self).next_group_id()),
            r == group_add_outcome(old(self).group_rows(), old(device)@),
            final(self).group_rows() == groups_after_add(
                old(self).group_rows(),
                old(self).next_group_id(),
                old(device)@,
            ),
            group_table_wf(old(self).group_rows(), old(self).next_group_id()) ==> group_table_wf(
                final(self).group_rows(),
                final(self).next_group_id(),
            ),
            final(self).device_rows() == old(self).device_rows(),
            final(self).next_device_id() == old(self).next_device_id(),
    ;
}

/// Adding to a well-formed table leaves a well-formed table: in no state
/// do two groups share a serial number or an identity.
pub proof fn lemma_group_add_keeps_wf(
    rows: Seq<DeviceGroupView>,
    next_id: i64,
    group: DeviceGroupView,
)
    requires
        group_table_wf(rows, next_id),
        next_id < i64::MAX,
    ensures
        group_table_wf(groups_after_add(rows, next_id, group), (next_id + 1) as i64),
{
    let after = groups_after_add(rows, next_id, group);
    if !has_group_serial(rows, group.serial_number) {
        let added = group_identified(group, next_id);
        assert(group_serials(after) =~= group_serials(rows).push(added.serial_number));
        assert(group_ids(after) =~= group_ids(rows).push(next_id));
        assert forall|i: int| 0 <= i < rows.len() implies group_ids(rows)[i] != next_id by {
            assert(rows[i].device_group_id < next_id);
        }
        lemma_push_fresh_key(group_serials(rows), added.serial_number);
        lemma_push_fresh_key(group_ids(rows), next_id);
    }
}

/// Of two groups with one serial number added one after the other, the
/// second is refused with `DuplicateKeyError` and leaves the table as the
/// first left it; the first is stored exactly if the serial number was free.
pub proof fn lemma_group_added_twice(
    rows: Seq<DeviceGroupView>,
    next_id: i64,
    first: DeviceGroupView,
    second: DeviceGroupView,
)
    requires
        first.serial_number == second.serial_number,
        next_id < i64::MAX,
    ensures
        group_add_outcome(rows, first) is Ok <==> !has_group_serial(rows, first.serial_number),
        group_add_outcome(groups_after_add(rows, next_id, first), second) == Err::<(), Error>(
            Error::DuplicateKeyError,
        ),
        groups_after_add(groups_after_add(rows, next_id, first), (next_id + 1) as i64, second)
            == groups_after_add(rows, next_id, first),
{
    let after = groups_after_add(rows, next_id, first);
    if !has_group_serial(rows, first.serial_number) {
        assert(group_serials(after)[rows.len() as int] == first.serial_number);
    }
}

} // verus!
