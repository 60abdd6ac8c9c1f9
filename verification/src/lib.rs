//! Decoder for captured frames of a game server's wire protocol.
//!
//! The library reconstructs human-readable, localized event messages (world
//! announcements, status lines, player deaths) from raw captured frames,
//! suppresses retransmitted duplicates, and prepares per-victim death history
//! annotations.  All parsing and formatting logic is verified; capture,
//! persistence and delivery are collaborators supplied by the caller.
pub mod bytestr;
pub mod death;
pub mod generic;
pub mod pipeline;
pub mod strings;
pub mod utf8check;
