//! The per-domain handler logic the engine can decide for itself.
//!
//! Each domain's work splits into decisions and I/O. The decisions —
//! what request to send, and which outcome each kind of answer maps to —
//! live here; the transport layer performs the send between the two.

pub mod deploy;
pub mod discord;
pub mod frontend;
pub mod sql;
