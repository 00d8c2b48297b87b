//! Diagnostic console core for a watchdog appliance.
//!
//! The appliance exposes an unauthenticated debug console over TCP.  Each
//! accepted connection is greeted with a banner carrying the device identity,
//! then driven by a line-command interpreter: one read, one dispatch attempt,
//! one response, until the client sends `exit` or the connection fails.
//!
//! This crate holds the protocol logic — command recognition, response
//! construction, the per-session state machine, and a ghost model of the
//! whole multi-session server — all verified.  The surrounding process
//! (sockets, threads, the identity file, the remote-access service) performs
//! the I/O and feeds plain bytes in and out of these functions.

pub mod command;
pub mod session;
pub mod device;
pub mod model;
