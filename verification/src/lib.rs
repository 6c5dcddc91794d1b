//! Verified core of a Wayland-style binary display-protocol server.
//!
//! The crate covers the protocol engine shared by every interface: the wire
//! codec, the per-connection object registry, the request dispatcher, the
//! event sink, and the double-buffered commit discipline for surface-like
//! objects. Transport (sockets, async tasks) is deliberately outside: the
//! engine consumes and produces plain byte buffers and queues.

pub mod errors;
pub mod registry;
pub mod resource;
pub mod session;
pub mod utf8;
pub mod wayland;
pub mod wire;
pub mod xdg_shell;
