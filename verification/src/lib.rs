//! Request construction and response handling for typed REST API clients.
//!
//! The crate performs no I/O. It builds the requests that a transport sends,
//! judges the responses that come back, and drives result pagination one page
//! at a time, so that every decision is a function from values to values.

pub mod encode;
pub mod query;
pub mod client;
pub mod garnishments;
pub mod paginate;
pub mod team;
pub mod user_factor;
