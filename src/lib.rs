//! Per-guild voice and playback coordination for a music chat bot.
//!
//! The library decides; the program around it performs. Every operation takes
//! the registry of guild sessions and an event (a command, or the outcome of
//! an outside call), updates the registry, and hands back a [`reply::Step`]: the reply
//! to send and the outside call to make next.
pub mod command;
pub mod laws;
pub mod coordinator;
pub mod reply;
pub mod session;
