//! Outcome types shared by every operation of the core.

use vstd::prelude::*;
use vstd::std_specs::convert::FromSpecImpl;

verus! {

/// The ways an operation of the core can fail.
#[derive(Clone, Copy, Debug, PartialEq, Eq, Structural)]
pub enum Error {
    /// A temperature payload is not a sequence of four-digit hexadecimal chunks.
    ConversionFailed,
    /// The aggregate that a request refers to does not exist.
    NotFound,
    /// An aggregate with the same serial number is already stored.
    DuplicateKeyError,
    /// Input from the transport layer does not have the expected shape.
    SchemaError,
}

/// What a command answers when it has nothing to hand back but its success.
#[derive(Clone, Copy, Debug, PartialEq, Eq, Structural)]
pub enum Response {
    /// The command was carried out.
    Empty,
}

impl From<()> for Response {
    fn from(_value: ()) -> (response: Self) {
        Response::Empty
    }
}

impl FromSpecImpl<()> for Response {
    open spec fn obeys_from_spec() -> bool {
        true
    }

    open spec fn from_spec(_value: ()) -> Self {
        Response::Empty
    }
}

} // verus!
