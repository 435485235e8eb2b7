//! An in-memory text buffer with cursor-relative editing and a linear
//! undo/redo history.

pub mod buffer;
pub mod text;
pub mod laws;
pub mod editor;
pub mod counter;
