//! Core of a live network-traffic monitor: the interface catalog, the traffic
//! counter, the capture session and the rules by which sessions are started,
//! stopped and switched. The crate opens no device and reads no frame: a driver
//! carries out what its functions decide and reports back what happened.

pub mod api;
pub mod capture;
pub mod error;
pub mod state;

pub use state::AppState;
