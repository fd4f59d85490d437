//! A modal text editor core: a document of rope-backed lines, a cursor kept
//! in buffer and screen coordinates, and a scrolling window over the lines.

pub mod command_line;
pub mod document;
pub mod editor;
pub mod model;
pub mod rope;
pub mod text;
pub mod util;
