//! A text backend for chart drawing: a fixed-size grid of character cells,
//! the rule that merges overlapping strokes into one glyph, axis-aligned line
//! rasterization, anchored text placement and the flattening of the grid into
//! lines of text.
pub mod canvas;
pub mod pixel;
pub mod present;
pub mod raster;
pub mod text;

pub use canvas::TextDrawingBackend;
pub use pixel::PixelState;
pub use text::{estimate_text_size, text_origin, HPos, VPos};
