//! Requests as they arrive and answers as they leave, and the reading of
//! dates and times on the way in.

pub mod in_schema;
pub mod out_schema;

use vstd::prelude::*;

use crate::domain::response::Error;
use crate::domain::timestamp::parsed_naive_utc;
use crate::domain::timestamp::Timestamp;

verus! {

/// The layout in which requests write dates and times: year, month and day
/// with hyphens, a space, then hours, minutes and seconds with colons.
pub const DATETIME_FORMAT: &'static str = "%Y-%m-%d %H:%M:%S";

/// What a date and time that was read, or failed to be read, means for the
/// request that held it.
pub open spec fn utc_datetime_or_schema_error(parsed: Option<Timestamp>) -> Result<
    Timestamp,
    Error,
> {
    match parsed {
        Some(at) => Ok(at),
        None => Err(Error::SchemaError),
    }
}

/// Turns the outcome of reading a date and time into the instant, or into
/// `SchemaError` where nothing could be read.
pub fn utc_datetime_from(parsed: Option<Timestamp>) -> (r: Result<Timestamp, Error>)
    ensures
        r == utc_datetime_or_schema_error(parsed),
{
    match parsed {
        Some(at) => Ok(at),
        None => Err(Error::SchemaError),
    }
}

/// Reads `given` as a date and time in the layout of `DATETIME_FORMAT` and
/// takes it as UTC. Text that does not follow the layout, or that names no
/// real date and time, is a `SchemaError`.
pub fn convert_string_to_utc_datetime(given: &str) -> (r: Result<Timestamp, Error>)
    ensures
        r == utc_datetime_or_schema_error(parsed_naive_utc(given@, DATETIME_FORMAT@)),
{
    utc_datetime_from(Timestamp::parse_naive_utc(given, DATETIME_FORMAT))
}

} // verus!
