//! Client-side engine for a browser-oriented case-management service.
//!
//! The service exposes no partial-update API: every mutation is a full HTML
//! form submission, and reads arrive as a paginated JSON table feed or as
//! HTML detail pages.  This crate holds the verified core of that protocol:
//! building the exact query and form payloads a browser would submit,
//! merging sparse operator overrides over the current remote state without
//! touching unrelated fields, decoding the feed leniently, and round-tripping
//! the local batch file that drives bulk operations.

pub mod assistance;
pub mod batch;
pub mod batchfile;
pub mod endpoints;
pub mod errors;
pub mod json;
pub mod members;
pub mod merge;
pub mod query;
pub mod record;
pub mod session;
pub mod text;
