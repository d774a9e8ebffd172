//! The kinds of failure an export can meet.

use vstd::prelude::*;
use crate::json::Json;

verus! {

/// The part of a response that did not have the expected shape.
#[derive(Debug, PartialEq, Eq, Clone, Copy)]
pub enum Fault {
    /// The cursor token is missing, is not a string, or is empty.
    CursorToken,
    /// The list of hits is missing or is not an array.
    Hits,
    /// The total count is present but is not an unsigned integer.
    Total,
}

/// Why a step of an export failed.
#[derive(Debug, PartialEq)]
pub enum ExportError {
    /// The query text is not a structured value; carries the parser's message.
    MalformedQuery(String),
    /// The backend answered with an error; carries what it gave as the error.
    BackendError(Json),
    /// The response lacks a field that every successful answer carries.
    ProtocolViolation(Fault),
    /// The round-trip itself failed; carries the transport's message.
    TransportFailure(String),
    /// The backend did not confirm the release; carries the status it gave,
    /// or nothing where no answer came.
    ReleaseFailure(Option<u16>),
}

} // verus!
