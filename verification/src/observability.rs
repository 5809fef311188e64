//! The stable observability surface: correlation ids for logs outside command handlers.
pub use crate::correlation::cid;
