//! The in-memory store and the capabilities it offers to the handlers.

pub mod mock_db;
pub mod repository;
