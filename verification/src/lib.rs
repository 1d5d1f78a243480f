//! Core state machinery of a keyboard-driven terminal HTTP client:
//! a cursor-based single-line text editor, a wraparound list-selection
//! component, a focus router over a fixed pane topology, and the
//! request-dispatch / response-formatting pipeline.
//!
//! All drawing, raw-terminal setup and network I/O live outside this
//! crate; it exposes plain state that a drawing layer can read and an
//! event loop can drive.

pub mod dispatch;
pub mod input_line;
pub mod keys;
pub mod lists;
pub mod pane;
pub mod request;
pub mod response;
pub mod router;
pub mod select_list;
