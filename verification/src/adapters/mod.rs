//! What stands between the core and the world around it: the store that
//! keeps the aggregates, and the shapes of requests and answers.

pub mod database;
pub mod rest_api;
