//! The ground control station.

pub mod backlog;
pub mod command_laws;
pub mod fault;
pub mod monitor;
pub mod scheduler;
pub mod state;
pub mod telemetry;
pub mod telemetry_laws;
pub mod uplink;
pub mod watch_laws;
