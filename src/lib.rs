//! Session-authenticated real-time chat: one-time sign-in tokens, sessions,
//! the per-connection state machine, the participant registry and the chat
//! log, with their contracts.

use vstd::prelude::*;

pub mod auth;
pub mod connection;
pub mod email;
pub mod events;
pub mod identity;
pub mod platform;
pub mod registry;
pub mod retry;
pub mod session;
pub mod settings;
pub mod text;
pub mod theme;
pub mod timefmt;
