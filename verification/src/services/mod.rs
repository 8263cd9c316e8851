//! The use cases of the core.

pub mod handlers;
