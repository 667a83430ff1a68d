//! Controller core of a terminal music-player application.
//!
//! This crate holds the verified control logic of the interactive loop:
//! translating key presses into semantic commands, queueing and dispatching
//! those commands in FIFO order, the screen and input-mode state machines,
//! the dirty-tracking model-update cycle, command-text parsing, playback
//! label formatting and frame layout. Terminal I/O, rendering and the
//! asynchronous collaborators (API client, player, screen widgets) live
//! outside this crate and hand plain values in and out.

pub mod app;
pub mod config;
pub mod input;
pub mod laws;
pub mod layout;
pub mod playback;
pub mod screen;
pub mod widget;

pub use config::{AppMode, Command, ParseError, ScreenEnum};
pub use input::{KeyCode, KeyEvent, KeyEventKind};
