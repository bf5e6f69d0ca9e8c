//! Verified core of a multiplexing webhook hub.
//!
//! One inbound request may address up to four independent downstream
//! domains (`deploy`, `discord`, `frontend`, `sql`). This crate holds the
//! domain-agnostic engine: bearer-token authentication over fixed-length
//! credentials, the request envelope model, the fan-out plan, and the
//! aggregation of per-domain outcomes into one response body with one
//! overall status code.
//!
//! The transport around it — the HTTP endpoint, the outbound calls each
//! domain handler makes, the database — stays outside: it hands the
//! engine plain values and carries the engine's decisions out.

pub mod auth;
pub mod handlers;
pub mod ids;
pub mod incoming;
pub mod json;
pub mod logging;
pub mod outgoing;
pub mod passwords;
pub mod records;
pub mod render;
pub mod response;
pub mod sql;
mod strings;

pub use auth::AuthHeader;
pub use auth::Credentials;
pub use auth::Token;
pub use auth::check_matches;
pub use ids::Uuid;
pub use incoming::Incoming;
pub use json::JsonModel;
pub use json::JsonValue;
pub use response::Outgoing;
pub use response::Response;
