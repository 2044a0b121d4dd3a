//! A small terminal chat interface: a status line, a message log and a
//! multi-line input widget, driven by keyboard input and a randomized timer.
//!
//! This crate holds the verified core: the chat state machine (submit, edit,
//! timer and quit transitions), the text formatting that the panes display,
//! and the three-pane layout computation. The terminal I/O around it (raw
//! mode, the alternate screen, the event loop plumbing) lives outside.

pub mod text;
pub mod widget;
pub mod model;
pub mod state;
pub mod layout;
pub mod render;
pub mod rng;
pub mod laws;
