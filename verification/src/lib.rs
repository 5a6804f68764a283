//! A broadcast hub for text messages.
//!
//! Connections register with a [`registry::WsChatServer`]; every text that a
//! connection sends is fanned out to all registered connections, the sender
//! included. The hub decides, the embedding program carries out: each
//! operation takes plain values and returns the messages that are to be sent.

pub mod laws;
pub mod message;
pub mod model;
pub mod registry;
pub mod session;
