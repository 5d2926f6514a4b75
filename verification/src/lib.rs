//! Core of a one-directional chat-to-broker bridge: every message seen in a
//! joined chat room is republished on a pub/sub broker under a topic derived
//! from the room's identity.
//!
//! This library holds the verified decision logic of the bridge: topic
//! sanitization, room-identity resolution, message classification, the
//! per-event publish plan, and the construction of the broker connect
//! options. The surrounding process (argument parsing, the chat session,
//! the broker connection, the synchronization loop) feeds plain values in
//! and carries the planned publishes out.

pub mod bridge;
pub mod broker;
pub mod config;
pub mod sanitize;
