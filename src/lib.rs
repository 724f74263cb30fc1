//! Relays hex-encoded bitcoin transactions carried by nostr events to a
//! node: event filtering by kind and network marker, payload extraction,
//! and the choice between single and package submission.

pub mod dispatch;
pub mod event;
pub mod extract;
pub mod hex;
pub mod network;
pub mod pipeline;
