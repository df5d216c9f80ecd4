//! Core logic of a speed-reading viewer: a window takes one dropped text
//! file, splits it into words, and shows one word at a time at a rate the
//! user adjusts with the mouse wheel. This crate holds the verified state
//! machine (drag accounting, speed control, word splitting, cursor advance,
//! display selection); the windowing shell drives it frame by frame and does
//! the drawing.

pub mod color;
pub mod input;
pub mod laws;
pub mod reader;
pub mod text;
