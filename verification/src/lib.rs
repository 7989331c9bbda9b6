//! Verified core of a small RTSP session-setup intermediary.
//!
//! A client opens a stream connection and sends a session-setup request whose
//! target URI carries a device address and credentials in its first three path
//! segments. The intermediary authenticates against the device over a separate
//! channel and answers with a single redirect response that embeds the session
//! token it obtained; every other input closes the connection without a reply.
//!
//! The crate holds the per-connection logic: incremental framing of the byte
//! stream, the request -> authenticate -> redirect state machine, and the
//! construction of the login URL and of the redirect reply. Reading from the
//! socket and the HTTPS login round trip are left to the surrounding program,
//! which feeds their outcomes into [`conn::Conn`] as plain values.

pub mod conn;
pub mod frame;
pub mod laws;
pub mod redirect;
pub mod session_id;
