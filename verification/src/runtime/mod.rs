//! Request routing, task ownership, cancellation decisions, and errors.

pub mod error;
pub mod router;
pub mod task;
