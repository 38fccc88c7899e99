//! The onboard control system.

pub mod command;
pub mod downlink;
pub mod downlink_laws;
pub mod fault;
pub mod link_laws;
pub mod scheduler;
pub mod scheduler_laws;
pub mod sensor;
pub mod sensor_laws;
pub mod state;
pub mod summary;
pub mod telemetry;
