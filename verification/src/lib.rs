//! Telemetry core for grouped IoT devices: registration of device groups and
//! devices, decoding of hex-encoded temperature batches, and average
//! temperature queries over arbitrary time windows.

pub mod adapters;
pub mod domain;
pub mod services;
