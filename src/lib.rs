//! Client core for a ticket-tracking service's REST API: the stored
//! credential profile, request construction, and typed decoding of the
//! service's JSON listings.

pub mod client;
pub mod config;
pub mod json;
pub mod schema;
