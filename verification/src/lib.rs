//! Playback engine of a tracker-module player.
//!
//! The engine is a state machine. It decides what happens next and asks its
//! surroundings for the work it cannot do itself: listing a directory, opening
//! a module file, decoding a block of audio. The surroundings answer, and the
//! engine moves on. Every transition carries a contract over the engine's view.

pub mod audio;
pub mod config;
pub mod context;
pub mod event;
pub mod metadata;
pub mod player;
pub mod playlist;
pub mod subscribers;
pub mod time;
