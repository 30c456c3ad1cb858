//! Playback coordination and navigation for a terminal music player.
//!
//! The control side is [`app::App`]: selection lists, tabs and panels, and the
//! four channel endpoints through which it drives the render side,
//! [`player::Player`]. Everything that touches a terminal, an audio device or
//! the file system is left to the caller, who hands in plain values.

pub mod app;
pub mod channel;
pub mod events;
pub mod library;
pub mod list;
pub mod paths;
pub mod player;
pub mod table;
pub mod tabs;
pub mod track;
