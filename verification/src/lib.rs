//! Draining a large result set from a search backend through a server-side
//! cursor: validating each raw response, deciding when a failed continuation
//! is attempted again, and tracking a session up to the release of its cursor.
//!
//! The library decides; the caller performs the network round-trips and hands
//! each outcome back.

pub mod error;
pub mod extract;
pub mod json;
pub mod query;
pub mod release;
pub mod retry;
pub mod session;
