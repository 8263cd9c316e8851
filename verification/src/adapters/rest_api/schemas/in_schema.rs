//! Requests as they arrive: dates and times are still text.

use vstd::prelude::*;

use crate::adapters::rest_api::schemas::convert_string_to_utc_datetime;
use crate::adapters::rest_api::schemas::DATETIME_FORMAT;
use crate::domain::device::commands::SaveDeviceTemperature;
use crate::domain::device::query::GetDeviceAverageTemperatureDuringPeriodQuery;
use crate::domain::device::query::GetDeviceGroupAverageTemperatureDuringPeriodQuery;
use crate::domain::response::Error;
use crate::domain::timestamp::parsed_naive_utc;
use crate::domain::timestamp::Timestamp;

verus! {

/// A batch of temperature readings as it arrives.
pub struct SaveDeviceTemperatureBody {
    pub serial_number: String,
    pub interval: i64,
    pub temperatures: String,
    pub registered_at: String,
}

impl SaveDeviceTemperatureBody {
    /// The command that this body asks for, its first reading taken at
    /// `registered_at`.
    pub fn command_at(self, registered_at: Timestamp) -> (cmd: SaveDeviceTemperature)
        ensures
            cmd.serial_number@ == self.serial_number@,
            cmd.interval == self.interval,
            cmd.temperatures@ == self.temperatures@,
            cmd.registered_at == registered_at,
    {
        SaveDeviceTemperature {
            serial_number: self.serial_number,
            interval: self.interval,
            temperatures: self.temperatures,
            registered_at,
        }
    }

    /// The command that this body asks for; `SchemaError` where
    /// `registered_at` cannot be read as a date and time.
    pub fn into_command(self) -> (r: Result<SaveDeviceTemperature, Error>)
        ensures
            match parsed_naive_utc(self.registered_at@, DATETIME_FORMAT@) {
                Some(at) => r matches Ok(cmd) && cmd.serial_number@ == self.serial_number@
                    && cmd.interval == self.interval && cmd.temperatures@ == self.temperatures@
                    && cmd.registered_at == at,
                None => r matches Err(e) && e == Error::SchemaError,
            },
    {
        match convert_string_to_utc_datetime(self.registered_at.as_str()) {
            Ok(registered_at) => Ok(self.command_at(registered_at)),
            Err(e) => Err(e),
        }
    }
}

/// A question about one device as it arrives.
pub struct GetDeviceAverageTemperatureDuringPeriod {
    pub serial_number: String,
    pub start_date: String,
    pub end_date: String,
}

impl GetDeviceAverageTemperatureDuringPeriod {
    /// The query that this request asks, over the window from `start_date`
    /// to `end_date`.
    pub fn query_between(self, start_date: Timestamp, end_date: Timestamp) -> (query:
        GetDeviceAverageTemperatureDuringPeriodQuery)
        ensures
            query.serial_number@ == self.serial_number@,
            query.start_date == start_date,
            query.end_date == end_date,
    {
        GetDeviceAverageTemperatureDuringPeriodQuery {
            serial_number: self.serial_number,
            start_date,
            end_date,
        }
    }

    /// The query that this request asks; `SchemaError` where either end of
    /// the window cannot be read as a date and time.
    pub fn into_query(self) -> (r: Result<GetDeviceAverageTemperatureDuringPeriodQuery, Error>)
        ensures
            match (
                parsed_naive_utc(self.start_date@, DATETIME_FORMAT@),
                parsed_naive_utc(self.end_date@, DATETIME_FORMAT@),
            ) {
                (Some(start), Some(end)) => r matches Ok(query) && query.serial_number@
                    == self.serial_number@ && query.start_date == start && query.end_date == end,
                _ => r matches Err(e) && e == Error::SchemaError,
            },
    {
        let start_date = match convert_string_to_utc_datetime(self.start_date.as_str()) {
            Ok(at) => at,
            Err(e) => {
                return Err(e);
            },
        };
        let end_date = match convert_string_to_utc_datetime(self.end_date.as_str()) {
            Ok(at) => at,
            Err(e) => {
                return Err(e);
            },
        };
        Ok(self.query_between(start_date, end_date))
    }
}

/// A question about the devices of one group as it arrives.
pub struct GetDeviceGroupAverageTemperatureDuringPeriod {
    pub device_group_serial: String,
    pub start_date: String,
    pub end_date: String,
}

impl GetDeviceGroupAverageTemperatureDuringPeriod {
    /// The query that this request asks, over the window from `start_date`
    /// to `end_date`.
    pub fn query_between(self, start_date: Timestamp, end_date: Timestamp) -> (query:
        GetDeviceGroupAverageTemperatureDuringPeriodQuery)
        ensures
            query.device_group_serial@ == self.device_group_serial@,
            query.start_date == start_date,
            query.end_date == end_date,
    {
        GetDeviceGroupAverageTemperatureDuringPeriodQuery {
            device_group_serial: self.device_group_serial,
            start_date,
            end_date,
        }
    }

    /// The query that this request asks; `SchemaError` where either end of
    /// the window cannot be read as a date and time.
    pub fn into_query(self) -> (r: Result<
        GetDeviceGroupAverageTemperatureDuringPeriodQuery,
        Error,
    >)
        ensures
            match (
                parsed_naive_utc(self.start_date@, DATETIME_FORMAT@),
                parsed_naive_utc(self.end_date@, DATETIME_FORMAT@),
            ) {
                (Some(start), Some(end)) => r matches Ok(query) && query.device_group_serial@
                    == self.device_group_serial@ && query.start_date == start && query.end_date
                    == end,
                _ => r matches Err(e) && e == Error::SchemaError,
            },
    {
        let start_date = match convert_string_to_utc_datetime(self.start_date.as_str()) {
            Ok(at) => at,
            Err(e) => {
                return Err(e);
            },
        };
        let end_date = match convert_string_to_utc_datetime(self.end_date.as_str()) {
            Ok(at) => at,
            Err(e) => {
                return Err(e);
            },
        };
        Ok(self.query_between(start_date, end_date))
    }
}

} // verus!
