//! The input and focus engine of a terminal client for Matrix accounts.
//!
//! The engine moves a focus among on-screen regions by their geometry, edits
//! the text of the focused field at a shared cursor, and routes each key press
//! by the current input mode. Drawing, the network and the file system stay
//! with the caller, which hands plain values in and takes plain values back.

pub mod app;
pub mod event;
pub mod focus;
pub mod geometry;
pub mod matrix;
pub mod pos;
pub mod registry;
pub mod save;
pub mod text;
