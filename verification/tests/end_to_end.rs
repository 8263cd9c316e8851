use chrono::{Duration, TimeZone, Utc};

use middle_mile::adapters::database::mock_db::MockDb;
use middle_mile::domain::device::commands::{RegisterDevice, SaveDeviceTemperature};
use middle_mile::domain::device::query::GetDeviceAverageTemperatureDuringPeriodQuery;
use middle_mile::domain::device::repository::TDeviceQuery;
use middle_mile::domain::device::AverageTemperature;
use middle_mile::domain::device_group::commands::RegisterDeviceGroup;
use middle_mile::domain::response::Response;
use middle_mile::domain::timestamp::Timestamp;
use middle_mile::services::handlers::{CommandHandler, QueryHandler};

#[test]
fn a_group_a_device_a_batch_and_its_average() {
    let mut db = MockDb::new();
    let t = Utc.with_ymd_and_hms(2023, 2, 1, 19, 0, 0).unwrap();
    let at = |seconds: i64| {
        let instant = t + Duration::seconds(seconds);
        Timestamp { secs: instant.timestamp(), nanos: instant.timestamp_subsec_nanos() }
    };

    let group = CommandHandler::new(
        RegisterDeviceGroup { device_group_serial: "A1".to_string() },
        &mut db,
    )
    .handle()
    .unwrap();
    assert_eq!(group.serial_number, "A1");

    let (device, of_group) = CommandHandler::new(
        RegisterDevice {
            serial_number: "C1".to_string(),
            device_group_serial: "A1".to_string(),
        },
        &mut db,
    )
    .handle()
    .unwrap();
    assert_eq!(device.serial_number, "C1");
    assert_eq!(of_group.serial_number, "A1");
    assert_eq!(of_group.device_group_id, group.device_group_id);

    let saved = CommandHandler::new(
        SaveDeviceTemperature {
            serial_number: "C1".to_string(),
            interval: 300,
            temperatures: "FFFE00010003FFFE".to_string(),
            registered_at: at(0),
        },
        &mut db,
    )
    .handle();
    assert_eq!(saved, Ok(Response::Empty));

    let stored = TDeviceQuery::get(&db, "C1").unwrap();
    assert_eq!(
        stored
            .temperatures
            .iter()
            .map(|sample| (sample.checked_at, sample.temperature))
            .collect::<Vec<_>>(),
        vec![(at(0), -2), (at(300), 1), (at(600), 3), (at(900), -2)]
    );

    let (queried, average) = QueryHandler::new(
        GetDeviceAverageTemperatureDuringPeriodQuery {
            serial_number: "C1".to_string(),
            start_date: at(0),
            end_date: at(900),
        },
        &db,
    )
    .handle()
    .unwrap();
    assert_eq!(queried.serial_number, "C1");
    assert_eq!(average, Some(AverageTemperature { sum: 0, count: 4 }));

    // with 0001 in place of the last chunk the four readings average to 0.75
    CommandHandler::new(
        RegisterDevice {
            serial_number: "C2".to_string(),
            device_group_serial: "A1".to_string(),
        },
        &mut db,
    )
    .handle()
    .unwrap();
    CommandHandler::new(
        SaveDeviceTemperature {
            serial_number: "C2".to_string(),
            interval: 300,
            temperatures: "FFFE000100030001".to_string(),
            registered_at: at(0),
        },
        &mut db,
    )
    .handle()
    .unwrap();
    let (_, warmer) = QueryHandler::new(
        GetDeviceAverageTemperatureDuringPeriodQuery {
            serial_number: "C2".to_string(),
            start_date: at(0),
            end_date: at(900),
        },
        &db,
    )
    .handle()
    .unwrap();
    let warmer = warmer.unwrap();
    assert_eq!(warmer.sum as f32 / warmer.count as f32, 0.75);
}
