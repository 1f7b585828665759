//! What a Rust module needs to talk to a Rawtoh hub: Ed25519 enrollment,
//! JSON-RPC 2.0 sessions, and a hub connection that registers, reconnects and
//! fans events out to subscriptions.
//!
//! The library decides; it does no input or output of its own. Sockets, HTTP,
//! clocks and tasks belong to the program around it, which hands each event in
//! and carries out the action that comes back.

pub mod base64url;
pub mod error;
pub mod hub;
pub mod identity;
pub mod json;
pub mod laws;
pub mod random;
pub mod text;
pub mod ws;

pub use error::{Error, RpcError};
pub use hub::{
    DisconnectReason, HubConnection, HubOptions, Status, CLOSE_DISCONNECT_REQUESTED,
    CLOSE_KEY_ROTATED,
};
pub use identity::{enroll, sign_challenge, EnrollResult, Identity};
pub use ws::{CloseCode, WsClient};
