//! Patterns: an image and the axes along which it tiles.

use crate::style::{FillOrStrokeStyle, PaintModel, RepetitionStyle, SurfaceModel, SurfaceStyle};
use euclid::default::Size2D;
use vstd::prelude::*;

verus! {

/// An immutable tileable image. It owns its pixels; once built, nothing
/// changes it.
#[derive(Debug)]
pub struct CanvasPattern {
    surface_data: Vec<u8>,
    surface_size: Size2D<i32>,
    repeat_x: bool,
    repeat_y: bool,
}

impl View for CanvasPattern {
    type V = SurfaceModel;

    closed spec fn view(&self) -> SurfaceModel {
        SurfaceModel {
            pixels: self.surface_data@,
            width: self.surface_size.width as int,
            height: self.surface_size.height as int,
            repeat_x: self.repeat_x,
            repeat_y: self.repeat_y,
        }
    }
}

impl CanvasPattern {
    /// Builds a pattern that takes ownership of `surface_data`.
    ///
    /// Every input is accepted. In particular the length of `surface_data` is
    /// not held against `surface_size`: whether the pattern
    /// [has RGBA layout](SurfaceModel::has_rgba_layout) is up to the caller.
    pub fn new(surface_data: Vec<u8>, surface_size: Size2D<i32>, repeat: RepetitionStyle) -> (pattern:
        CanvasPattern)
        ensures
            pattern@ == SurfaceModel::tiled(
                surface_data@,
                surface_size.width as int,
                surface_size.height as int,
                repeat,
            ),
    {
        let (repeat_x, repeat_y) = repeat.decompose();
        CanvasPattern { surface_data, surface_size, repeat_x, repeat_y }
    }

    /// The pattern's bytes.
    pub fn surface_data(&self) -> (data: &[u8])
        ensures
            data@ == self@.pixels,
    {
        self.surface_data.as_slice()
    }

    /// The pattern's dimensions in pixels.
    pub fn surface_size(&self) -> (size: Size2D<i32>)
        ensures
            size.width == self@.width,
            size.height == self@.height,
    {
        self.surface_size
    }

    /// Whether the pattern tiles horizontally.
    pub fn repeat_x(&self) -> (flag: bool)
        ensures
            flag == self@.repeat_x,
    {
        self.repeat_x
    }

    /// Whether the pattern tiles vertically.
    pub fn repeat_y(&self) -> (flag: bool)
        ensures
            flag == self@.repeat_y,
    {
        self.repeat_y
    }

    /// The style that fills or strokes with this pattern. It holds a copy of
    /// the pixels, so it can outlive the pattern and be changed without
    /// touching it.
    pub fn to_fill_or_stroke_style(&self) -> (style: FillOrStrokeStyle)
        ensures
            style@ == PaintModel::Surface(self@),
    {
        FillOrStrokeStyle::Surface(
            SurfaceStyle::new(
                self.surface_data.clone(),
                self.surface_size,
                self.repeat_x,
                self.repeat_y,
            ),
        )
    }
}

} // verus!
