//! A configurable error-aggregation facade: one tagged union (`AppError`)
//! that wraps the error kinds of the enabled external integrations plus a
//! free-form custom message, together with a stable numeric code table
//! (`AppErrorCode`) for reporting errors across a wire boundary.

pub mod outside;
pub mod result;
