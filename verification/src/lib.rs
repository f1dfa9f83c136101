//! Core of a small terminal text editor: a line-indexed byte buffer, a
//! rope-backed editor with a cursor and a single-step undo history, and a
//! differential screen renderer that emits only the cells that changed.

pub mod document;
pub mod editor;
pub mod error;
pub mod input;
pub mod render;
pub mod rope;
pub mod term;
pub mod terminal;
pub mod text;
pub mod utils;
