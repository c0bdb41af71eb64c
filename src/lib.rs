//! Client side of a CAN-attached distance sensor: the status poll with its
//! staleness window, the configuration requests and the flattening of their
//! responses, the backend abstraction behind a device handle, and the
//! shapes in which results reach C and Java callers.

pub mod config;
pub mod device;
pub mod laws;
pub mod measurement;
pub mod status;
pub mod surface;
