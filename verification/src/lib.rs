//! Message envelope and classification for a JSON-RPC 2.0 request/response
//! protocol.
//!
//! An inbound JSON payload carries no explicit type tag: its category must be
//! inferred from which optional fields are present and whether they validate
//! against a known schema. This crate classifies any parsed JSON value into
//! exactly one of four categories — request, notification, response, or an
//! opaque unknown — and renders a classified message back to JSON with the
//! fixed `"jsonrpc":"2.0"` envelope stamped on it.

pub mod classify;
pub mod error;
pub mod message;
pub mod model;
pub mod render;
pub mod value;

pub use error::ParseError;
pub use message::Id;
pub use message::Message;
pub use message::Notification;
pub use message::Outcome;
pub use message::Request;
pub use message::Response;
pub use message::Unknown;
