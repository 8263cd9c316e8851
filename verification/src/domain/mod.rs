//! Aggregates, commands, queries and the outcome types they share.

pub mod device;
pub mod device_group;
pub mod response;
pub mod rows;
pub mod timestamp;
