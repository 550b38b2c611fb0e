//! Rendering of raster frames as text art for a terminal.
//!
//! The crate turns RGB bitmaps into rows of three-character glyphs, fits
//! them to the character grid of a terminal, and decides, step by step, what
//! a playback loop has to do next. It performs no input or output itself:
//! callers hand it bitmaps and terminal sizes and carry out the commands it
//! returns.

pub mod bitmap;
pub mod error;
pub mod events;
pub mod palette;
pub mod player;
pub mod render;
pub mod resize;
