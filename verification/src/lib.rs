//! Pre-flight logic of a VPN client.
//!
//! `tunnel` chooses the parameters of the next connection attempt: it decides
//! which protocol an installation prefers, drives one generation step by step
//! and remembers the relays of the last successful one. `windows` confirms that
//! the tunnel's network interface is usable: it lays socket addresses out as the
//! network stack stores them and decides, notification by notification and poll
//! by poll, when an interface is ready. `net` holds the address types both share.
//!
//! Nothing here performs I/O. Where work has to be done outside (a file read, a
//! query of the network stack, a sleep), a state machine names the request and
//! takes the reply as a plain value.

pub mod net;
pub mod tunnel;
pub mod windows;
