//! Validation of a raw response, shared by the initial query and by every
//! continuation.

use vstd::prelude::*;
use crate::error::{ExportError, Fault};
use crate::json::Json;

verus! {

/// Whether a value under `error` reports an error: an object always does,
/// a string or an array does unless it is empty, a boolean or a number
/// does, and null does not.
pub open spec fn reports_error(value: Json) -> bool {
    match value {
        Json::Null => false,
        Json::Text(s) => s@.len() > 0,
        Json::Array(items) => items@.len() > 0,
        _ => true,
    }
}

/// The error that a response carries: its member `error`, unless that is
/// absent, null, or an empty string or array.
pub open spec fn error_object(response: Json) -> Option<Json> {
    match response.member("error"@) {
        Some(e) => if reports_error(e) {
            Some(e)
        } else {
            None
        },
        None => None,
    }
}

/// The cursor token of a response: the string member `_scroll_id`, if it is
/// there and not empty.
pub open spec fn cursor_token(response: Json) -> Option<String> {
    match response.member("_scroll_id"@) {
        Some(v) => match v.text() {
            Some(s) => if s@.len() > 0 {
                Some(s)
            } else {
                None
            },
            None => None,
        },
        None => None,
    }
}

/// The batch of a response: the array `hits` inside the object `hits`.
pub open spec fn hit_list(response: Json) -> Option<Vec<Json>> {
    match response.member("hits"@) {
        Some(outer) => match outer.member("hits"@) {
            Some(inner) => inner.elements(),
            None => None,
        },
        None => None,
    }
}

/// The total a response reports, `hits.total.value`: 0 where `total` or
/// `value` is absent, nothing where `total` is no object or `value` is no
/// unsigned integer.
pub open spec fn reported_total(response: Json) -> Option<u64> {
    match response.member("hits"@) {
        Some(outer) => match outer.member("total"@) {
            Some(total) => if total is Object {
                match total.member("value"@) {
                    Some(v) => v.unsigned(),
                    None => Some(0u64),
                }
            } else {
                None
            },
            None => Some(0u64),
        },
        None => Some(0u64),
    }
}

/// What a response yields: the backend's error if it carries one, else the
/// cursor token, the batch and the total, each checked in that order.
pub open spec fn extraction(response: Json) -> Result<(String, Vec<Json>, u64), ExportError> {
    if error_object(response) is Some {
        Err(ExportError::BackendError(error_object(response).unwrap()))
    } else if cursor_token(response) is None {
        Err(ExportError::ProtocolViolation(Fault::CursorToken))
    } else if hit_list(response) is None {
        Err(ExportError::ProtocolViolation(Fault::Hits))
    } else if reported_total(response) is None {
        Err(ExportError::ProtocolViolation(Fault::Total))
    } else {
        Ok(
            (
                cursor_token(response).unwrap(),
                hit_list(response).unwrap(),
                reported_total(response).unwrap(),
            ),
        )
    }
}

/// Whether a value under `error` reports an error.
pub fn is_error_value(value: &Json) -> (r: bool)
    ensures
        r == reports_error(*value),
{
    match value {
        Json::Null => false,
        Json::Text(s) => {
            let empty = String::new();
            if *s == empty {
                false
            } else {
                assert(s@.len() > 0) by {
                    if s@.len() == 0 {
                        assert(s@ =~= Seq::<char>::empty());
                    }
                }
                true
            }
        },
        Json::Array(items) => items.len() > 0,
        _ => true,
    }
}

/// Whether the response carries an error.
pub fn has_error_object(response: &Json) -> (r: bool)
    ensures
        r == (error_object(*response) is Some),
{
    match response.get("error") {
        Some(e) => is_error_value(e),
        None => false,
    }
}

/// Reads the cursor token of a response.
pub fn read_cursor_token(response: &Json) -> (r: Option<String>)
    ensures
        r == cursor_token(*response),
{
    match response.get("_scroll_id") {
        Some(v) => match v.as_str() {
            Some(s) => {
                let empty = String::new();
                if *s == empty {
                    None
                } else {
                    assert(s@.len() > 0) by {
                        if s@.len() == 0 {
                            assert(s@ =~= Seq::<char>::empty());
                        }
                    }
                    Some(s.clone())
                }
            },
            None => None,
        },
        None => None,
    }
}

/// Reads the total that a response reports.
pub fn read_total(response: &Json) -> (r: Option<u64>)
    ensures
        r == reported_total(*response),
{
    match response.get("hits") {
        Some(outer) => match outer.get("total") {
            Some(total) => if total.is_object() {
                match total.get("value") {
                    Some(v) => v.as_u64(),
                    None => Some(0),
                }
            } else {
                None
            },
            None => Some(0),
        },
        None => Some(0),
    }
}

/// Takes the batch out of a response.
pub fn take_hit_list(response: Json) -> (r: Option<Vec<Json>>)
    ensures
        r == hit_list(response),
{
    match response.take("hits") {
        Some(outer) => match outer.take("hits") {
            Some(inner) => inner.into_array(),
            None => None,
        },
        None => None,
    }
}

/// Turns a raw response into the new cursor token, the batch and the total,
/// or into the failure it stands for.
///
/// An error in the response, of whatever shape, makes the call fail with
/// it, whatever else the response holds. Otherwise the cursor token must be a non-empty string and the hits
/// an array; the total is 0 where the response gives none.
pub fn extract_search_result(response: Json) -> (r: Result<(String, Vec<Json>, u64), ExportError>)
    ensures
        r == extraction(response),
{
    if has_error_object(&response) {
        let payload = response.take("error").unwrap();
        return Err(ExportError::BackendError(payload));
    }
    let cursor = match read_cursor_token(&response) {
        Some(token) => token,
        None => {
            return Err(ExportError::ProtocolViolation(Fault::CursorToken));
        },
    };
    let total = read_total(&response);
    let batch = match take_hit_list(response) {
        Some(items) => items,
        None => {
            return Err(ExportError::ProtocolViolation(Fault::Hits));
        },
    };
    match total {
        Some(n) => Ok((cursor, batch, n)),
        None => Err(ExportError::ProtocolViolation(Fault::Total)),
    }
}

/// A response whose `error` member reports an error yields that backend
/// error, however well-formed its other fields are: it yields neither a
/// result nor a protocol violation.
pub proof fn lemma_error_prevails(response: Json)
    requires
        response.member("error"@) is Some,
        reports_error(response.member("error"@).unwrap()),
    ensures
        !(extraction(response) is Ok),
        extraction(response) == Err::<(String, Vec<Json>, u64), ExportError>(
            ExportError::BackendError(response.member("error"@).unwrap()),
        ),
{
}

/// A successful extraction carries a non-empty cursor token, and the batch
/// and total are those the response holds.
pub proof fn lemma_success_shape(response: Json)
    requires
        extraction(response) is Ok,
    ensures
        error_object(response) is None,
        extraction(response).unwrap().0@.len() > 0,
        Some(extraction(response).unwrap().1) == hit_list(response),
        Some(extraction(response).unwrap().2) == reported_total(response),
{
}

} // verus!
