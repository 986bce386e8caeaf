//! Tileable paint sources for a 2D drawing surface.
//!
//! A [`CanvasPattern`] pairs a raster image with independent horizontal and
//! vertical tiling, and converts into the [`FillOrStrokeStyle`] that a paint
//! backend consumes when it fills or strokes with the pattern.

pub mod geometry;
pub mod laws;
pub mod pattern;
pub mod style;

pub use crate::pattern::CanvasPattern;
pub use crate::style::{FillOrStrokeStyle, PaintModel, RepetitionStyle, SurfaceModel, SurfaceStyle};
