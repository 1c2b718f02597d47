//! The operations that the transport layer calls.

pub mod handlers;
