//! Playback engine of a local-file music player.
//!
//! The library holds the decisions of the player: how the position in the
//! catalog advances, how a position is mapped to a track when shuffle is on,
//! how the worker reacts to each command, and how the foreground state follows
//! the user's actions. Everything that touches the audio device, the file
//! system or the window is left to the program around it.

pub mod backend;
pub mod config;
pub mod file;
pub mod frontend;
pub mod state;
