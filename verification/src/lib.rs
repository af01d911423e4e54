//! The session broker of a privilege-separated host daemon, together with the
//! small codec and stream helpers that ship alongside it.
//!
//! The broker decides; it never performs I/O. Every protocol is a step
//! function from a state and an event to the next state and the action the
//! caller has to carry out, so that each ordering rule of the protocol is a
//! statement about that function.

pub mod error;
pub mod manifest;
pub mod manifest_proofs;
pub mod transport;
pub mod trichechus;
pub mod control_link;
pub mod session;
pub mod session_proofs;
pub mod memory_service;
pub mod log_drain;
pub mod log_drain_proofs;
pub mod state;
pub mod dbus_names;
pub mod format;
pub mod crypto;
pub mod ippusb_bridge;
pub mod syslog;
