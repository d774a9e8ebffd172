//! The initial query: checking the caller's query text and fixing the
//! parameters of the search request.

use vstd::prelude::*;
use crate::error::ExportError;

verus! {

/// `serde_json::Value`, carried from the parser to the request and never
/// looked into.
#[verifier::external_type_specification]
#[verifier::external_body]
pub struct ExValue(serde_json::Value);

/// `serde_json::Error`, of which only its text is taken.
#[verifier::external_type_specification]
#[verifier::external_body]
pub struct ExParseError(serde_json::Error);

/// What `serde_json::from_str` makes of a text, read as a
/// `serde_json::Value`.
pub uninterp spec fn json_parse(text: Seq<char>) -> Result<serde_json::Value, serde_json::Error>;

/// The `Display` text of a `serde_json::Error`.
pub uninterp spec fn error_text(error: serde_json::Error) -> Seq<char>;

/// `serde_json::from_str`, at the type `serde_json::Value`. The contract
/// claims that the result depends on the text alone; it says nothing of
/// what the result is.
#[verifier::external_body]
fn value_from_str(text: &str) -> (r: Result<serde_json::Value, serde_json::Error>)
    ensures
        r == json_parse(text@),
{
    serde_json::from_str::<serde_json::Value>(text)
}

/// The `Display` text of a `serde_json::Error`. The contract claims that
/// the text depends on the error alone.
#[verifier::external_body]
fn parse_error_text(error: &serde_json::Error) -> (r: String)
    ensures
        r@ == error_text(*error),
{
    error.to_string()
}

/// Whether the text is one JSON value.
pub open spec fn json_text(text: Seq<char>) -> bool {
    json_parse(text) is Ok
}

/// The message that a malformed query text is refused with: the parser's.
pub open spec fn query_fault(text: Seq<char>) -> Seq<char> {
    match json_parse(text) {
        Ok(_) => Seq::<char>::empty(),
        Err(e) => error_text(e),
    }
}

/// How long the backend keeps a cursor alive between two calls.
pub fn scroll_window() -> (r: &'static str)
    ensures
        r@ == "10m"@,
{
    "10m"
}

/// How long the backend may work on one search before it answers.
pub fn call_timeout() -> (r: &'static str)
    ensures
        r@ == "10s"@,
{
    "10s"
}

/// Reads the caller's query text. A text that is no JSON value is a
/// malformed query, found before anything is sent; the error carries the
/// parser's message.
pub fn parse_query(text: &str) -> (r: Result<serde_json::Value, ExportError>)
    ensures
        match r {
            Ok(v) => json_parse(text@) == Ok::<serde_json::Value, serde_json::Error>(v),
            Err(e) => {
                &&& !json_text(text@)
                &&& e matches ExportError::MalformedQuery(m)
                &&& m@ == query_fault(text@)
            },
        },
{
    match value_from_str(text) {
        Ok(body) => Ok(body),
        Err(error) => Err(ExportError::MalformedQuery(parse_error_text(&error))),
    }
}

/// The parameters of the initial search, beside its body.
#[derive(Debug, PartialEq, Eq)]
pub struct SearchParams {
    /// The index to search.
    pub index: String,
    /// The most documents one batch may hold.
    pub size: i64,
    /// The cursor's validity window.
    pub scroll: String,
    /// The backend's time limit for the search.
    pub timeout: String,
}

/// Fixes the parameters of the initial search: the batch size as given, the
/// cursor kept alive for the scroll window, and the search bounded by the
/// call timeout. The two durations are independent of each other.
pub fn search_params(index: &str, batch_size: usize) -> (r: SearchParams)
    requires
        0 < batch_size <= i64::MAX,
    ensures
        r.index@ == index@,
        r.size == batch_size,
        r.scroll@ == "10m"@,
        r.timeout@ == "10s"@,
{
    SearchParams {
        index: String::from_str(index),
        size: batch_size as i64,
        scroll: String::from_str(scroll_window()),
        timeout: String::from_str(call_timeout()),
    }
}

/// The initial search, ready to be sent. There is one only for a query
/// text that could be read.
#[derive(Debug, PartialEq)]
pub struct SearchRequest {
    /// The parameters beside the body.
    pub params: SearchParams,
    /// The query, as read from the caller's text.
    pub body: serde_json::Value,
}

/// Prepares the initial search from the caller's query text. A malformed
/// text fails here, so that nothing is sent for it; any other text gives the
/// request with the value read from it as the body and with the parameters
/// of `search_params`.
pub fn plan_search(index: &str, query: &str, batch_size: usize) -> (r: Result<
    SearchRequest,
    ExportError,
>)
    requires
        0 < batch_size <= i64::MAX,
    ensures
        match r {
            Ok(request) => {
                &&& json_parse(query@) == Ok::<serde_json::Value, serde_json::Error>(request.body)
                &&& request.params.index@ == index@
                &&& request.params.size == batch_size
                &&& request.params.scroll@ == "10m"@
                &&& request.params.timeout@ == "10s"@
            },
            Err(e) => {
                &&& !json_text(query@)
                &&& e matches ExportError::MalformedQuery(m)
                &&& m@ == query_fault(query@)
            },
        },
{
    match parse_query(query) {
        Ok(body) => Ok(SearchRequest { params: search_params(index, batch_size), body }),
        Err(e) => Err(e),
    }
}

/// The parameters of one continuation.
#[derive(Debug, PartialEq, Eq)]
pub struct ContinueParams {
    /// The cursor token to continue with.
    pub scroll_id: String,
    /// The cursor's validity window, renewed by the call.
    pub scroll: String,
}

/// Fixes the parameters of a continuation attempt: the token as given and
/// the scroll window. A retry is planned from the token of the attempt that
/// failed, and so asks with the same token.
pub fn plan_continue(token: &str) -> (r: ContinueParams)
    ensures
        r.scroll_id@ == token@,
        r.scroll@ == "10m"@,
{
    ContinueParams { scroll_id: String::from_str(token), scroll: String::from_str(scroll_window()) }
}

} // verus!
