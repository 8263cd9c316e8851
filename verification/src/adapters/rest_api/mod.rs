//! The shapes in which requests reach the core and answers leave it.

pub mod response;
pub mod schemas;
