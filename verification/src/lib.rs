//! Request-dispatch and event-notification core of a smart-accessory bridge.
//!
//! The crate provides the subscription-based event bus that broadcasts typed
//! events to registered listeners, and the uniform handler machinery that
//! routes binary TLV and JSON endpoints through one polymorphic interface,
//! each format owning its parsing, error encoding, and HTTP status mapping.

pub mod accessories;
pub mod event;
pub mod handler;
pub mod handshake;
pub mod http;
pub mod tlv;
