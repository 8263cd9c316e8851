use middle_mile::adapters::database::mock_db::{device_group_table, device_table, MockDb};
use middle_mile::domain::device::commands::{RegisterDevice, SaveDeviceTemperature};
use middle_mile::domain::device::repository::{TDeviceGroupQuery, TDevicePersist, TDeviceQuery};
use middle_mile::domain::device::DeviceAggregate;
use middle_mile::domain::device_group::commands::RegisterDeviceGroup;
use middle_mile::domain::device_group::repository::TDeviceGroupPersist;
use middle_mile::domain::device_group::DeviceGroupAggregate;
use middle_mile::domain::response::Error;
use middle_mile::domain::timestamp::Timestamp;

fn device(serial_number: &str, device_group_serial: &str) -> DeviceAggregate {
    DeviceAggregate::create(
        RegisterDevice {
            serial_number: serial_number.to_string(),
            device_group_serial: device_group_serial.to_string(),
        },
        Timestamp { secs: 1_675_278_000, nanos: 0 },
    )
}

fn group(serial: &str) -> DeviceGroupAggregate {
    DeviceGroupAggregate::create(
        RegisterDeviceGroup { device_group_serial: serial.to_string() },
        Timestamp { secs: 1_675_278_000, nanos: 0 },
    )
}

#[test]
fn a_new_store_is_empty() {
    let db = MockDb::new();

    assert!(device_table(&db).is_empty());
    assert!(device_group_table(&db).is_empty());
    assert!(db.can_add_device());
    assert!(db.can_add_device_group());
    assert!(matches!(db.get_device("C1"), Err(Error::NotFound)));
    assert!(matches!(db.get_device_group("A1"), Err(Error::NotFound)));
    assert!(db.list_devices_by_group("A1").is_empty());
}

#[test]
fn added_devices_get_identities_in_the_order_of_arrival() {
    let mut db = MockDb::new();
    let mut first = device("C1", "A1");
    let mut second = device("C2", "A1");
    let mut third = device("C3", "A2");

    assert_eq!(db.add_device(&mut first), Ok(()));
    assert_eq!(db.add_device(&mut second), Ok(()));
    assert_eq!(db.add_device(&mut third), Ok(()));

    assert_eq!((first.device_id, second.device_id, third.device_id), (0, 1, 2));
    let table = device_table(&db)
        .iter()
        .map(|row| (row.device_id, row.serial_number.clone()))
        .collect::<Vec<_>>();
    assert_eq!(
        table,
        vec![(0, "C1".to_string()), (1, "C2".to_string()), (2, "C3".to_string())]
    );
}

#[test]
fn the_second_of_two_devices_with_one_serial_number_is_refused() {
    let mut db = MockDb::new();
    let mut first = device("C1", "A1");
    let mut second = device("C1", "A2");

    assert_eq!(db.add_device(&mut first), Ok(()));
    assert_eq!(db.add_device(&mut second), Err(Error::DuplicateKeyError));

    assert_eq!(device_table(&db).len(), 1);
    assert_eq!(device_table(&db)[0].device_group_serial_number, "A1");
    assert_eq!(db.get_device("C1").unwrap().device_id, 0);
}

#[test]
fn whichever_of_two_devices_with_one_serial_number_comes_first_is_stored() {
    let mut db = MockDb::new();
    let mut first = device("C1", "A1");
    let mut second = device("C1", "A2");

    assert_eq!(db.add_device(&mut second), Ok(()));
    assert_eq!(db.add_device(&mut first), Err(Error::DuplicateKeyError));

    assert_eq!(device_table(&db).len(), 1);
    assert_eq!(device_table(&db)[0].device_group_serial_number, "A2");
}

#[test]
fn a_refused_device_has_spent_its_identity() {
    let mut db = MockDb::new();
    let mut first = device("C1", "A1");
    let mut again = device("C1", "A1");
    let mut next = device("C2", "A1");

    db.add_device(&mut first).unwrap();
    assert_eq!(db.add_device(&mut again), Err(Error::DuplicateKeyError));
    db.add_device(&mut next).unwrap();

    assert_eq!(first.device_id, 0);
    assert_eq!(again.device_id, 1);
    assert_eq!(next.device_id, 2);
    let ids = device_table(&db).iter().map(|row| row.device_id).collect::<Vec<_>>();
    assert_eq!(ids, vec![0, 2]);
}

#[test]
fn serial_numbers_differ_by_case_and_by_length() {
    let mut db = MockDb::new();

    for serial in ["C1", "c1", "C10", "C", "", "Ç1"] {
        assert_eq!(db.add_device(&mut device(serial, "A1")), Ok(()));
    }
    for serial in ["C1", "c1", "C10", "C", "", "Ç1"] {
        assert_eq!(db.add_device(&mut device(serial, "A1")), Err(Error::DuplicateKeyError));
        assert_eq!(db.get_device(serial).unwrap().serial_number, serial);
    }
    assert!(matches!(db.get_device("C11"), Err(Error::NotFound)));
    assert!(matches!(db.get_device("ç1"), Err(Error::NotFound)));
    assert_eq!(device_table(&db).len(), 6);
}

#[test]
fn the_store_keeps_a_copy_of_what_was_added() {
    let mut db = MockDb::new();
    let mut added = device("C1", "A1");
    db.add_device(&mut added).unwrap();

    added.serial_number = "C9".to_string();
    added
        .save_temperatures(SaveDeviceTemperature {
            serial_number: "C9".to_string(),
            interval: 1,
            temperatures: "0001".to_string(),
            registered_at: Timestamp { secs: 0, nanos: 0 },
        })
        .unwrap();

    let stored = db.get_device("C1").unwrap();
    assert_eq!(stored.serial_number, "C1");
    assert!(stored.temperatures.is_empty());
    assert!(matches!(db.get_device("C9"), Err(Error::NotFound)));
}

#[test]
fn a_device_is_updated_by_its_identity() {
    let mut db = MockDb::new();
    db.add_device(&mut device("C1", "A1")).unwrap();
    db.add_device(&mut device("C2", "A1")).unwrap();
    db.add_device(&mut device("C3", "A1")).unwrap();

    let mut changed = db.get_device("C2").unwrap();
    changed
        .save_temperatures(SaveDeviceTemperature {
            serial_number: "C2".to_string(),
            interval: 1,
            temperatures: "00010002".to_string(),
            registered_at: Timestamp { secs: 0, nanos: 0 },
        })
        .unwrap();
    assert_eq!(db.update_device(&changed), Ok(()));

    let table = device_table(&db)
        .iter()
        .map(|row| (row.device_id, row.serial_number.clone(), row.temperatures.len()))
        .collect::<Vec<_>>();
    assert_eq!(
        table,
        vec![(0, "C1".to_string(), 0), (1, "C2".to_string(), 2), (2, "C3".to_string(), 0)]
    );
}

#[test]
fn updating_a_device_that_is_not_stored_is_not_found() {
    let mut db = MockDb::new();
    db.add_device(&mut device("C1", "A1")).unwrap();

    let mut stranger = device("C1", "A1");
    stranger.device_id = 5;

    assert_eq!(db.update_device(&stranger), Err(Error::NotFound));
    assert_eq!(device_table(&db).len(), 1);
    assert_eq!(device_table(&db)[0].device_id, 0);

    let mut empty = MockDb::new();
    assert_eq!(empty.update_device(&device("C1", "A1")), Err(Error::NotFound));
}

#[test]
fn devices_are_listed_by_group_in_the_order_of_arrival() {
    let mut db = MockDb::new();
    for (serial, of_group) in [("C1", "A1"), ("D1", "A2"), ("C2", "A1"), ("D2", "A2"), ("C3", "A1")] {
        db.add_device(&mut device(serial, of_group)).unwrap();
    }

    let of_first = db
        .list_devices_by_group("A1")
        .iter()
        .map(|row| row.serial_number.clone())
        .collect::<Vec<_>>();
    let of_second = db
        .list_devices_by_group("A2")
        .iter()
        .map(|row| row.serial_number.clone())
        .collect::<Vec<_>>();

    assert_eq!(of_first, vec!["C1", "C2", "C3"]);
    assert_eq!(of_second, vec!["D1", "D2"]);
    assert!(db.list_devices_by_group("A3").is_empty());
    assert!(db.list_devices_by_group("a1").is_empty());
}

#[test]
fn added_groups_get_identities_of_their_own() {
    let mut db = MockDb::new();
    db.add_device(&mut device("C1", "A1")).unwrap();
    db.add_device(&mut device("C2", "A1")).unwrap();
    let mut first = group("A1");
    let mut again = group("A1");
    let mut second = group("A2");

    assert_eq!(db.add_device_group(&mut first), Ok(()));
    assert_eq!(db.add_device_group(&mut again), Err(Error::DuplicateKeyError));
    assert_eq!(db.add_device_group(&mut second), Ok(()));

    assert_eq!((first.device_group_id, again.device_group_id, second.device_group_id), (0, 1, 2));
    let table = device_group_table(&db)
        .iter()
        .map(|row| (row.device_group_id, row.serial_number.clone()))
        .collect::<Vec<_>>();
    assert_eq!(table, vec![(0, "A1".to_string()), (2, "A2".to_string())]);
    assert_eq!(db.get_device_group("A2").unwrap().device_group_id, 2);
    assert!(matches!(db.get_device_group("C1"), Err(Error::NotFound)));
    assert_eq!(device_table(&db).len(), 2);
}

#[test]
fn the_capabilities_answer_as_the_store_does() {
    let mut db = MockDb::new();
    let mut a_group = group("A1");
    let mut a_device = device("C1", "A1");

    assert_eq!(TDeviceGroupPersist::add(&mut db, &mut a_group), Ok(()));
    assert_eq!(
        TDeviceGroupPersist::add(&mut db, &mut group("A1")),
        Err(Error::DuplicateKeyError)
    );
    assert_eq!(TDevicePersist::add(&mut db, &mut a_device), Ok(()));
    assert_eq!(
        TDevicePersist::add(&mut db, &mut device("C1", "A1")),
        Err(Error::DuplicateKeyError)
    );
    assert_eq!(TDevicePersist::update(&mut db, &mut a_device), Ok(()));
    let mut stranger = device("C7", "A1");
    stranger.device_id = 7;
    assert_eq!(TDevicePersist::update(&mut db, &mut stranger), Err(Error::NotFound));

    assert_eq!(TDeviceGroupQuery::get(&db, "A1").unwrap().serial_number, "A1");
    assert!(matches!(TDeviceGroupQuery::get(&db, "A2"), Err(Error::NotFound)));
    assert_eq!(TDeviceQuery::get(&db, "C1").unwrap().serial_number, "C1");
    assert!(matches!(TDeviceQuery::get(&db, "C2"), Err(Error::NotFound)));
    assert_eq!(TDeviceQuery::list_by_group(&db, "A1").unwrap().len(), 1);
    assert!(TDeviceQuery::list_by_group(&db, "A2").unwrap().is_empty());
}

#[test]
fn an_update_is_carried_out_with_the_serial_number_it_brings() {
    let mut db = MockDb::new();
    db.add_device(&mut device("C1", "A1")).unwrap();
    db.add_device(&mut device("C2", "A1")).unwrap();

    let mut renamed = db.get_device("C1").unwrap();
    renamed.serial_number = "C2".to_string();
    assert_eq!(db.update_device(&renamed), Ok(()));

    let table = device_table(&db)
        .iter()
        .map(|row| (row.device_id, row.serial_number.clone()))
        .collect::<Vec<_>>();
    assert_eq!(table, vec![(0, "C2".to_string()), (1, "C2".to_string())]);
    assert_eq!(db.get_device("C2").unwrap().device_id, 0);
    assert!(matches!(db.get_device("C1"), Err(Error::NotFound)));
}
