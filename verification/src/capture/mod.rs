//! Counting traffic, describing interfaces and running one capture session.

pub mod device;
pub mod packet;
pub mod stats;

pub use device::DeviceManager;
pub use packet::PacketCapture;
