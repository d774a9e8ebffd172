//! Releasing a cursor: the request body and the reading of the answer.

use vstd::prelude::*;
use crate::error::ExportError;
use crate::json::Json;

verus! {

/// Whether an HTTP status is in the success class, 200 to 299.
pub open spec fn status_is_success(status: u16) -> bool {
    200 <= status < 300
}

/// The body of a release request: an object whose one member, `scroll_id`,
/// is the token.
pub fn release_body(token: String) -> (r: Json)
    ensures
        r matches Json::Object(members) && members@.len() == 1 && members@[0].0@ == "scroll_id"@
            && members@[0].1 == Json::Text(token),
        r.member("scroll_id"@) == Some(Json::Text(token)),
{
    let mut members: Vec<(String, Json)> = Vec::new();
    members.push((String::from_str("scroll_id"), Json::Text(token)));
    Json::Object(members)
}

/// Reads what came of a release: the status of the answer, or nothing where
/// the round-trip failed. A success status confirms the release; anything
/// else is a release failure that carries what came. A failed release is
/// reported and not attempted again.
pub fn release_outcome(status: Option<u16>) -> (r: Result<(), ExportError>)
    ensures
        r == if status is Some && status_is_success(status.unwrap()) {
            Ok::<(), ExportError>(())
        } else {
            Err::<(), ExportError>(ExportError::ReleaseFailure(status))
        },
{
    match status {
        Some(code) => if 200 <= code && code < 300 {
            Ok(())
        } else {
            Err(ExportError::ReleaseFailure(status))
        },
        None => Err(ExportError::ReleaseFailure(status)),
    }
}

} // verus!
