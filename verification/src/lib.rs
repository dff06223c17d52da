//! Verified core of a native capability service.
//!
//! The crate owns the decisions of the service: which capabilities are
//! granted, which request-owned tasks may start, how task failures and process
//! failures become structured errors, and how buffered process output stays
//! within its limit. Asynchronous plumbing that drives these decisions lives
//! outside the verified library.

pub mod capabilities;
pub mod runtime;
