//! The decision logic of a satellite's onboard control system and of the ground
//! control station that talks to it.
//!
//! Everything here works on plain values. Readings of the monotonic clock are passed in;
//! the sockets are served and the log is written by the programs around this library.

pub mod gcs;
pub mod mission;
pub mod satellite;
pub mod shared;
pub mod stats;
pub mod text;
pub mod time;
mod wallclock;
pub mod wire;
