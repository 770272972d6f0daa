//! Verified core of a launcher that brokers apps' encrypted access to a
//! user's private storage: the per-app session handshake, the classification
//! of inbound messages, the server's session registry and the composition root.
pub mod crypto;
pub mod dispatch;
pub mod events;
pub mod launcher;
pub mod server;
pub mod session;
pub mod text;
