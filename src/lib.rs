//! Authorization and message-delivery core of a channel-based chat platform.
//!
//! Permission bitfields and their override layering, escalation-safe
//! permission mutation, nonce-based send deduplication and the decisions of
//! the message send pipeline.

pub mod error;
pub mod permissions;
pub mod channel;
pub mod guard;
pub mod ids;
pub mod nonce;
pub mod mention;
pub mod reactions;
pub mod message;
pub mod pipeline;
pub mod guild;
