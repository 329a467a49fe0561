//! Core logic of a menu-bar microphone mute utility.
//!
//! The library verifies the microphone-state synchronization rules: how the
//! text reported by the OS volume query is interpreted as a muted/unmuted
//! state, which volume level a mute request writes, how a toggle decides its
//! target state, and why cosmetic side effects (feedback sound, tray update,
//! UI notification) can never change the outcome of a volume operation.
//!
//! The processes that carry the OS commands, and the tray and window chrome,
//! live outside the library; they hand it plain values (command outcomes,
//! menu event identifiers) and receive plain values back.

pub mod audio;
pub mod commands;
pub mod errors;
pub mod fallback;
pub mod presentation;
pub mod sound;
pub mod types;
