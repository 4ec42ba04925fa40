//! Session-backed client logic for a link-bookmarking service.
//!
//! The crate holds the decisions of the client: which request each operation
//! sends, how a reply is classified, how the session changes, and what the
//! single-slot session store holds. Performing a request and touching the
//! disk are left to the caller.

pub mod client;
pub mod error;
pub mod model;
pub mod prompt;
pub mod request;
pub mod status;
pub mod store;
pub mod text;
