//! Readiness of a network interface on Windows.

pub mod error;
pub mod family;
pub mod interfaces;
pub mod sockaddr;
pub mod status;
pub mod unicast;
pub mod watch;
pub mod wide;
