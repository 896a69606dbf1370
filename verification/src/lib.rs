//! The editing model of a small modal text editor for the terminal: the line
//! buffer, the scrolling viewport, the mapping between screen and buffer
//! coordinates, and the key dispatch of the Normal, Insert and Visual modes.
//!
//! The library owns the whole editor state and never touches the terminal.
//! A front end reads input events, hands each one to
//! [`editor::Editor::handle_input`], and paints what the returned
//! [`dispatch::Action`] asks for.

pub mod decimal;
pub mod dispatch;
pub mod editor;
pub mod line;
pub mod mapper;
pub mod motion;
pub mod render;
pub mod status;
pub mod text;
