use chrono::Utc;

use middle_mile::domain::device_group::commands::RegisterDeviceGroup;
use middle_mile::domain::device_group::DeviceGroupAggregate;
use middle_mile::domain::timestamp::Timestamp;

// Infallible operation which won't return error.
#[test]
fn mod_create_device_group() {
    //GIVEN
    let cmd = RegisterDeviceGroup {
        device_group_serial: "A1".to_string(),
    };
    //WHEN

    let group = DeviceGroupAggregate::new(cmd);

    //THEN
    assert!(!group.serial_number.is_empty());

    assert_ne!(group.created_at, Timestamp::default());
}

#[test]
fn a_new_group_has_its_serial_number_and_no_identity() {
    let group = DeviceGroupAggregate::new(RegisterDeviceGroup {
        device_group_serial: "A1".to_string(),
    });

    assert_eq!(group.device_group_id, 0);
    assert_eq!(group.serial_number, "A1");
}

#[test]
fn a_group_is_created_at_the_instant_it_is_given() {
    let group = DeviceGroupAggregate::create(
        RegisterDeviceGroup { device_group_serial: "A1".to_string() },
        Timestamp { secs: 1_675_278_000, nanos: 3 },
    );

    assert_eq!(group.device_group_id, 0);
    assert_eq!(group.serial_number, "A1");
    assert_eq!(group.created_at, Timestamp { secs: 1_675_278_000, nanos: 3 });
}

#[test]
fn the_clock_is_read_when_a_group_is_created() {
    let before = Utc::now().timestamp();
    let group = DeviceGroupAggregate::new(RegisterDeviceGroup {
        device_group_serial: "A1".to_string(),
    });
    let after = Utc::now().timestamp();

    assert!(before <= group.created_at.secs);
    assert!(group.created_at.secs <= after);
}

#[test]
fn the_default_group_is_empty_and_as_old_as_the_time_line() {
    let group = DeviceGroupAggregate::default();

    assert_eq!(group.device_group_id, 0);
    assert!(group.serial_number.is_empty());
    assert_eq!(group.created_at, Timestamp { secs: 0, nanos: 0 });
}

#[test]
fn a_copy_of_a_group_holds_what_the_group_holds() {
    let mut group = DeviceGroupAggregate::create(
        RegisterDeviceGroup { device_group_serial: "A1".to_string() },
        Timestamp { secs: 8, nanos: 9 },
    );
    group.device_group_id = 4;

    let copy = group.clone();

    assert_eq!(copy.device_group_id, 4);
    assert_eq!(copy.serial_number, "A1");
    assert_eq!(copy.created_at, Timestamp { secs: 8, nanos: 9 });
}
