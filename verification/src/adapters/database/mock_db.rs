//! The in-memory store: one table per kind of aggregate, each with the
//! counter that hands out its identities.

use vstd::prelude::*;
use vstd::string::*;
use vstd::utf8::encode_utf8_decode_utf8;

use crate::domain::device::repository::{
    device_add_outcome, device_identified, device_ids, device_serials, device_table_wf,
    device_update_outcome, device_views, device_with_serial, devices_after_add,
    devices_after_update, devices_of_group, in_group, keeps_serial, lemma_device_add_keeps_wf,
    lemma_device_update_keeps_wf, DeviceTable,
};
use crate::domain::device::{DeviceAggregate, DeviceView};
use crate::domain::device_group::repository::{
    group_add_outcome, group_identified, group_serials, group_table_wf, group_views,
    group_with_serial, groups_after_add, lemma_group_add_keeps_wf, DeviceGroupTable,
};
use crate::domain::device_group::{DeviceGroupAggregate, DeviceGroupView};
use crate::domain::response::Error;
use crate::domain::rows::{lemma_first_index, lemma_no_index};

verus! {

/// A store that keeps every aggregate in memory, in the order of arrival.
///
/// Whoever changes the store holds it exclusively, so that claiming an
/// identity, looking for the serial number and appending the row are one
/// step that nothing can come between.
pub struct MockDb {
    pub(crate) devices: Vec<DeviceAggregate>,
    pub(crate) device_groups: Vec<DeviceGroupAggregate>,
    pub(crate) next_device_id: i64,
    pub(crate) next_device_group_id: i64,
}

impl DeviceTable for MockDb {
    closed spec fn device_rows(&self) -> Seq<DeviceView> {
        device_views(self.devices@)
    }

    closed spec fn next_device_id(&self) -> i64 {
        self.next_device_id
    }
}

impl DeviceGroupTable for MockDb {
    closed spec fn group_rows(&self) -> Seq<DeviceGroupView> {
        group_views(self.device_groups@)
    }

    closed spec fn next_group_id(&self) -> i64 {
        self.next_device_group_id
    }
}

impl MockDb {
    /// An empty store whose identity counters stand at zero.
    pub fn new() -> (db: Self)
        ensures
            db.device_rows() == Seq::<DeviceView>::empty(),
            db.group_rows() == Seq::<DeviceGroupView>::empty(),
            db.next_device_id() == 0,
            db.next_group_id() == 0,
            device_table_wf(db.device_rows(), db.next_device_id()),
            group_table_wf(db.group_rows(), db.next_group_id()),
    {
        let db = MockDb {
            devices: Vec::new(),
            device_groups: Vec::new(),
            next_device_id: 0,
            next_device_group_id: 0,
        };
        assert(device_views(db.devices@) =~= Seq::empty());
        assert(group_views(db.device_groups@) =~= Seq::empty());
        db
    }

    /// Tells whether the counter of device identities has one left to hand
    /// out.
    pub fn can_add_device(&self) -> (b: bool)
        ensures
            b == (self.next_device_id() < i64::MAX),
    {
        self.next_device_id < i64::MAX
    }

    /// Tells whether the counter of group identities has one left to hand
    /// out.
    pub fn can_add_device_group(&self) -> (b: bool)
        ensures
            b == (self.next_group_id() < i64::MAX),
    {
        self.next_device_group_id < i64::MAX
    }

    /// Claims the next group identity for `group`, then stores it unless a
    /// group with its serial number is stored already. The identity is
    /// spent either way, and the devices are left alone.
    pub fn add_device_group(&mut self, group: &mut DeviceGroupAggregate) -> (r: Result<(), Error>)
        requires
            old(self).next_group_id() < i64::MAX,
        ensures
            final(self).next_group_id() == old(self).next_group_id() + 1,
            final(group)@ == group_identified(old(group)@, old(self).next_group_id()),
            r == group_add_outcome(old(self).group_rows(), old(group)@),
            final(self).group_rows() == groups_after_add(
                old(self).group_rows(),
                old(self).next_group_id(),
                old(group)@,
            ),
            group_table_wf(old(self).group_rows(), old(self).next_group_id()) ==> group_table_wf(
                final(self).group_rows(),
                final(self).next_group_id(),
            ),
            final(self).device_rows() == old(self).device_rows(),
            final(self).next_device_id() == old(self).next_device_id(),
    {
        proof {
            if group_table_wf(self.group_rows(), self.next_group_id()) {
                lemma_group_add_keeps_wf(self.group_rows(), self.next_group_id(), group@);
            }
        }
        group.device_group_id = self.next_device_group_id;
        self.next_device_group_id = self.next_device_group_id + 1;
        match self.group_position(group.serial_number.as_str()) {
            Some(_) => Err(Error::DuplicateKeyError),
            None => {
                let row = group.clone();
                self.device_groups.push(row);
                assert(group_views(self.device_groups@) =~= group_views(
                    old(self).device_groups@,
                ).push(group@));
                Ok(())
            },
        }
    }

    /// A copy of the group with the serial number `serial`.
    pub fn get_device_group(&self, serial: &str) -> (r: Result<DeviceGroupAggregate, Error>)
        ensures
            match group_with_serial(self.group_rows(), serial@) {
                Some(row) => r matches Ok(group) && group@ == row,
                None => r matches Err(e) && e == Error::NotFound,
            },
    {
        match self.group_position(serial) {
            Some(i) => Ok(self.device_groups[i].clone()),
            None => Err(Error::NotFound),
        }
    }

    /// Claims the next device identity for `device`, then stores it unless
    /// a device with its serial number is stored already. The identity is
    /// spent either way, and the groups are left alone.
    pub fn add_device(&mut self, device: &mut DeviceAggregate) -> (r: Result<(), Error>)
        requires
            old(self).next_device_id() < i64::MAX,
        ensures
            final(self).next_device_id() == old(self).next_device_id() + 1,
            final(device)@ == device_identified(old(device)@, old(self).next_device_id()),
            r == device_add_outcome(old(self).device_rows(), old(device)@),
            final(self).device_rows() == devices_after_add(
                old(self).device_rows(),
                old(self).next_device_id(),
                old(device)@,
            ),
            device_table_wf(old(self).device_rows(), old(self).next_device_id())
                ==> device_table_wf(final(self).device_rows(), final(self).next_device_id()),
            final(self).group_rows() == old(self).group_rows(),
            final(self).next_group_id() == old(self).next_group_id(),
    {
        proof {
            if device_table_wf(self.device_rows(), self.next_device_id()) {
                lemma_device_add_keeps_wf(self.device_rows(), self.next_device_id(), device@);
            }
        }
        device.device_id = self.next_device_id;
        self.next_device_id = self.next_device_id + 1;
        match self.device_position(device.serial_number.as_str()) {
            Some(_) => Err(Error::DuplicateKeyError),
            None => {
                let row = device.clone();
                self.devices.push(row);
                assert(device_views(self.devices@) =~= device_views(old(self).devices@).push(
                    device@,
                ));
                Ok(())
            },
        }
    }

    /// Puts `device` in the place of the stored device with its identity.
    /// The counters and the groups are left alone.
    pub fn update_device(&mut self, device: &DeviceAggregate) -> (r: Result<(), Error>)
        ensures
            final(self).next_device_id() == old(self).next_device_id(),
            r == device_update_outcome(old(self).device_rows(), device@),
            final(self).device_rows() == devices_after_update(old(self).device_rows(), device@),
            device_table_wf(old(self).device_rows(), old(self).next_device_id()) && keeps_serial(
                old(self).device_rows(),
                device@,
            ) ==> device_table_wf(final(self).device_rows(), final(self).next_device_id()),
            final(self).group_rows() == old(self).group_rows(),
            final(self).next_group_id() == old(self).next_group_id(),
    {
        proof {
            if device_table_wf(self.device_rows(), self.next_device_id()) && keeps_serial(
                self.device_rows(),
                device@,
            ) {
                lemma_device_update_keeps_wf(self.device_rows(), self.next_device_id(), device@);
            }
        }
        match self.device_position_by_id(device.device_id) {
            Some(i) => {
                let row = device.clone();
                self.devices.set(i, row);
                assert(device_views(self.devices@) =~= device_views(old(self).devices@).update(
                    i as int,
                    device@,
                ));
                Ok(())
            },
            None => Err(Error::NotFound),
        }
    }

    /// A copy of the device with the serial number `serial`.
    pub fn get_device(&self, serial: &str) -> (r: Result<DeviceAggregate, Error>)
        ensures
            match device_with_serial(self.device_rows(), serial@) {
                Some(row) => r matches Ok(device) && device@ == row,
                None => r matches Err(e) && e == Error::NotFound,
            },
    {
        match self.device_position(serial) {
            Some(i) => Ok(self.devices[i].clone()),
            None => Err(Error::NotFound),
        }
    }

    /// Copies of the devices of the group `group`, in the order in which
    /// the table is scanned.
    pub fn list_devices_by_group(&self, group: &str) -> (devices: Vec<DeviceAggregate>)
        ensures
            device_views(devices@) == devices_of_group(self.device_rows(), group@),
    {
        let ghost wanted = in_group(group@);
        let mut found: Vec<DeviceAggregate> = Vec::new();
        let mut i: usize = 0;
        assert(device_views(self.devices@.take(0)) =~= Seq::empty());
        assert(device_views(found@) =~= Seq::empty());
        while i < self.devices.len()
            invariant
                i <= self.devices@.len(),
                wanted == in_group(group@),
                device_views(found@) == device_views(self.devices@.take(i as int)).filter(wanted),
            decreases self.devices@.len() - i,
        {
            let ghost before = device_views(self.devices@.take(i as int));
            let ghost row = self.devices@[i as int]@;
            proof {
                assert(device_views(self.devices@.take(i + 1)) =~= before.push(row));
                before.lemma_filter_push(row, wanted);
            }
            if same_text(self.devices[i].device_group_serial_number.as_str(), group) {
                let ghost earlier = found@;
                let copy = self.devices[i].clone();
                found.push(copy);
                assert(device_views(found@) =~= device_views(earlier).push(row));
            }
            i += 1;
        }
        assert(self.devices@.take(i as int) =~= self.devices@);
        found
    }

    /// Where the first device with the serial number `serial` stands.
    fn device_position(&self, serial: &str) -> (at: Option<usize>)
        ensures
            match at {
                Some(i) => {
                    &&& i < self.devices@.len()
                    &&& device_serials(self.device_rows()).index_of_first(serial@) == Some(i as int)
                    &&& device_serials(self.device_rows()).contains(serial@)
                },
                None => {
                    &&& device_serials(self.device_rows()).index_of_first(serial@) is None
                    &&& !device_serials(self.device_rows()).contains(serial@)
                },
            },
    {
        let ghost serials = device_serials(self.device_rows());
        let mut i: usize = 0;
        while i < self.devices.len()
            invariant
                i <= self.devices@.len(),
                serials == device_serials(self.device_rows()),
                serials.len() == self.devices@.len(),
                forall|j: int| 0 <= j < i ==> serials[j] != serial@,
            decreases self.devices@.len() - i,
        {
            assert(serials[i as int] == self.devices@[i as int].serial_number@);
            if same_text(self.devices[i].serial_number.as_str(), serial) {
                proof {
                    lemma_first_index(serials, serial@, i as int);
                }
                return Some(i);
            }
            i += 1;
        }
        proof {
            lemma_no_index(serials, serial@);
        }
        None
    }

    /// Where the first device with the identity `id` stands.
    fn device_position_by_id(&self, id: i64) -> (at: Option<usize>)
        ensures
            match at {
                Some(i) => {
                    &&& i < self.devices@.len()
                    &&& device_ids(self.device_rows()).index_of_first(id) == Some(i as int)
                    &&& device_ids(self.device_rows()).contains(id)
                },
                None => {
                    &&& device_ids(self.device_rows()).index_of_first(id) is None
                    &&& !device_ids(self.device_rows()).contains(id)
                },
            },
    {
        let ghost ids = device_ids(self.device_rows());
        let mut i: usize = 0;
        while i < self.devices.len()
            invariant
                i <= self.devices@.len(),
                ids == device_ids(self.device_rows()),
                ids.len() == self.devices@.len(),
                forall|j: int| 0 <= j < i ==> ids[j] != id,
            decreases self.devices@.len() - i,
        {
            assert(ids[i as int] == self.devices@[i as int].device_id);
            if self.devices[i].device_id == id {
                proof {
                    lemma_first_index(ids, id, i as int);
                }
                return Some(i);
            }
            i += 1;
        }
        proof {
            lemma_no_index(ids, id);
        }
        None
    }

    /// Where the first group with the serial number `serial` stands.
    fn group_position(&self, serial: &str) -> (at: Option<usize>)
        ensures
            match at {
                Some(i) => {
                    &&& i < self.device_groups@.len()
                    &&& group_serials(self.group_rows()).index_of_first(serial@) == Some(i as int)
                    &&& group_serials(self.group_rows()).contains(serial@)
                },
                None => {
                    &&& group_serials(self.group_rows()).index_of_first(serial@) is None
                    &&& !group_serials(self.group_rows()).contains(serial@)
                },
            },
    {
        let ghost serials = group_serials(self.group_rows());
        let mut i: usize = 0;
        while i < self.device_groups.len()
            invariant
                i <= self.device_groups@.len(),
                serials == group_serials(self.group_rows()),
                serials.len() == self.device_groups@.len(),
                forall|j: int| 0 <= j < i ==> serials[j] != serial@,
            decreases self.device_groups@.len() - i,
        {
            assert(serials[i as int] == self.device_groups@[i as int].serial_number@);
            if same_text(self.device_groups[i].serial_number.as_str(), serial) {
                proof {
                    lemma_first_index(serials, serial@, i as int);
                }
                return Some(i);
            }
            i += 1;
        }
        proof {
            lemma_no_index(serials, serial@);
        }
        None
    }
}

/// The table of devices of `db`, in the order in which it is scanned.
pub fn device_table(db: &MockDb) -> (table: &Vec<DeviceAggregate>)
    ensures
        device_views(table@) == db.device_rows(),
{
    &db.devices
}

/// The table of device groups of `db`, in the order in which it is scanned.
pub fn device_group_table(db: &MockDb) -> (table: &Vec<DeviceGroupAggregate>)
    ensures
        group_views(table@) == db.group_rows(),
{
    &db.device_groups
}

/// Tells whether two strings hold the same characters.
fn same_text(a: &str, b: &str) -> (same: bool)
    ensures
        same == (a@ == b@),
{
    let left = a.as_bytes();
    let right = b.as_bytes();
    proof {
        encode_utf8_decode_utf8(a@);
        encode_utf8_decode_utf8(b@);
    }
    if left.len() != right.len() {
        return false;
    }
    let mut i: usize = 0;
    while i < left.len()
        invariant
            i <= left@.len(),
            left@.len() == right@.len(),
            left@ == a.spec_bytes(),
            right@ == b.spec_bytes(),
            forall|j: int| 0 <= j < i ==> left@[j] == right@[j],
        decreases left@.len() - i,
    {
        if left[i] != right[i] {
            return false;
        }
        i += 1;
    }
    assert(left@ =~= right@);
    true
}

} // verus!
