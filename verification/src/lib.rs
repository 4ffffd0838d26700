//! Verified core of a WebTransport echo service.
//!
//! The service accepts bidirectional streams, unidirectional streams and
//! datagrams, each carrying UTF-8 text, and answers every message with
//! `ACK` followed by the exact text it received, on the matching channel
//! kind. This crate holds the parts worth proving: UTF-8 validation, the
//! acknowledgement framing, the per-connection session state machine that
//! decides what each inbound event leads to, and the discovery document
//! that advertises the service. The surrounding process does the socket
//! work and asks this crate for every decision.

pub mod discovery;
pub mod protocol;
pub mod session;
pub mod utf8;

pub use protocol::build_ack;
pub use session::Session;
pub use utf8::check_utf8;
