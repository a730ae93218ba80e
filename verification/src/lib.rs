//! Core of a modal (vi-style) text editor: an in-memory line buffer, a
//! cursor with a scrolling viewport, a Normal/Insert/Exit state machine,
//! and a renderer that wraps the visible buffer window onto a bounded
//! character grid.
//!
//! Platform frontends own the actual terminal or canvas: they translate
//! native input into [`editor::KeyEvent`]s, feed them to
//! [`editor::Viteditor::event`], and replay the drawing commands returned
//! by [`editor::Viteditor::draw`] onto their output device.

pub mod args;
pub mod editor;
pub mod laws;
pub mod model;
pub mod render;
pub mod text;

pub use editor::Cursor;
pub use editor::KeyEvent;
pub use editor::Position;
pub use editor::State;
pub use editor::Viteditor;
pub use editor::Words;
