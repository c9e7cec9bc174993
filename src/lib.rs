//! A small deterministic vector canvas.
//!
//! Coordinates are whole numbers. The end of a line is worked out in fixed point:
//! sines and cosines in units of 2 to the -30th, the result snapped to the nearest
//! 1/256 and then rounded to a whole coordinate, so the same inputs give the same end
//! point on every machine. A canvas is an ordered scene: a black background first,
//! then one stroked line per successful draw.
pub mod canvas;
pub mod geometry;
pub mod palette;

pub use canvas::{Image, Primitive};
pub use geometry::{get_end_coordinates, get_end_coordinates_precise, normalize_direction, quantize};
pub use palette::{colors, Color, PaletteColor, PaletteError};
