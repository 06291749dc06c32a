//! A per-room voice session manager and command router for a chat bot.
//!
//! The library models the bot's core: one playback session per community
//! room, a registry that maps room identifiers to sessions, and a router
//! that turns raw message text into session operations, provider actions
//! and response messages. All real I/O (the chat platform, the media
//! transport, the weather service) is performed by the surrounding
//! program, which feeds plain values in and carries actions out.

pub mod track;
pub mod session;
pub mod registry;
pub mod text;
pub mod config;
pub mod weather;
pub mod router;
pub mod render;
pub mod laws;
