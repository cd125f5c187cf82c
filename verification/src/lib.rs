//! Command bridge between a front-end shell and local platform operations.
//!
//! The bridge registers a fixed set of named commands in an immutable
//! dispatch table, validates each invocation's arguments, asks its host to
//! perform the one native operation the command needs, and maps the native
//! outcome to a uniform result: success with a payload, or failure with a
//! single message string.

pub mod bridge;
pub mod invocation;
pub mod listing;

pub use invocation::InvocationResult;
pub use invocation::Payload;
