//! How a failure of the core is reported to the caller of the service.

use vstd::prelude::*;
use vstd::std_specs::convert::FromSpecImpl;

use crate::domain::response::Error;

verus! {

/// A failure on its way out of the service.
pub struct Exception<T>(pub T);

/// The status code under which `error` is reported.
pub open spec fn status_of(error: Error) -> u16 {
    match error {
        Error::NotFound => 404,
        Error::ConversionFailed => 400,
        Error::SchemaError => 422,
        Error::DuplicateKeyError => 500,
    }
}

/// The name under which `error` is reported.
pub open spec fn name_of(error: Error) -> Seq<char> {
    match error {
        Error::NotFound => "NotFound"@,
        Error::ConversionFailed => "ConversionFailed"@,
        Error::SchemaError => "SchemaError"@,
        Error::DuplicateKeyError => "DuplicateKeyError"@,
    }
}

impl Exception<Error> {
    /// The status code of the answer that reports this failure: 404 for a
    /// missing aggregate, 400 for a malformed temperature payload, 422 for
    /// malformed input, 500 for a serial number that is already taken.
    pub fn status(&self) -> (code: u16)
        ensures
            code == status_of(self.0),
    {
        match self.0 {
            Error::NotFound => 404,
            Error::ConversionFailed => 400,
            Error::SchemaError => 422,
            Error::DuplicateKeyError => 500,
        }
    }

    /// The message of the answer that reports this failure: the name of
    /// the failure.
    pub fn error_message(&self) -> (message: String)
        ensures
            message@ == name_of(self.0),
    {
        match self.0 {
            Error::NotFound => "NotFound".to_owned(),
            Error::ConversionFailed => "ConversionFailed".to_owned(),
            Error::SchemaError => "SchemaError".to_owned(),
            Error::DuplicateKeyError => "DuplicateKeyError".to_owned(),
        }
    }
}

impl From<Error> for Exception<Error> {
    fn from(value: Error) -> (exception: Self) {
        Exception(value)
    }
}

impl FromSpecImpl<Error> for Exception<Error> {
    open spec fn obeys_from_spec() -> bool {
        true
    }

    open spec fn from_spec(value: Error) -> Self {
        Exception(value)
    }
}

} // verus!
