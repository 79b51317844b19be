//! Playback orchestration engine for a chat-controlled audio bot.
//!
//! The crate turns raw chat messages into typed actions, runs the playback
//! state machine (queue, current track, paused/playing, volume), models the
//! per-track audio producer as a step machine, and prepares the audio frames
//! that the transport layer sends out.

pub mod audio;
pub mod command;
pub mod producer;
pub mod status;
pub mod supervisor;
pub mod text;
