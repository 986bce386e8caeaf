//! The paint styles a drawing operation can fill or stroke with, and the
//! mathematical model that their contracts are stated over.

use euclid::default::Size2D;
use vstd::prelude::*;

verus! {

/// How a pattern tiles beyond the edges of its image.
#[derive(Copy, Clone, Debug, PartialEq, Eq, Structural)]
pub enum RepetitionStyle {
    /// Tile along both axes.
    Repeat,
    /// Tile horizontally only.
    RepeatX,
    /// Tile vertically only.
    RepeatY,
    /// Draw the image once.
    NoRepeat,
}

impl RepetitionStyle {
    /// Whether the image is tiled along the horizontal axis.
    pub open spec fn repeats_x(self) -> bool {
        self is Repeat || self is RepeatX
    }

    /// Whether the image is tiled along the vertical axis.
    pub open spec fn repeats_y(self) -> bool {
        self is Repeat || self is RepeatY
    }

    /// Splits the style into its horizontal and vertical flags, in that order.
    pub fn decompose(self) -> (flags: (bool, bool))
        ensures
            flags.0 == self.repeats_x(),
            flags.1 == self.repeats_y(),
    {
        match self {
            RepetitionStyle::Repeat => (true, true),
            RepetitionStyle::RepeatX => (true, false),
            RepetitionStyle::RepeatY => (false, true),
            RepetitionStyle::NoRepeat => (false, false),
        }
    }
}

/// What a tiled surface is, mathematically: its bytes, its pixel dimensions
/// and the axes along which it repeats. Patterns and the surface styles made
/// from them are both viewed as this.
#[verifier::ext_equal]
pub struct SurfaceModel {
    pub pixels: Seq<u8>,
    pub width: int,
    pub height: int,
    pub repeat_x: bool,
    pub repeat_y: bool,
}

impl SurfaceModel {
    /// The surface made of `pixels` with the given dimensions, tiled as
    /// `repeat` says.
    pub open spec fn tiled(
        pixels: Seq<u8>,
        width: int,
        height: int,
        repeat: RepetitionStyle,
    ) -> SurfaceModel {
        SurfaceModel {
            pixels,
            width,
            height,
            repeat_x: repeat.repeats_x(),
            repeat_y: repeat.repeats_y(),
        }
    }

    /// Row-major RGBA layout: four bytes for each of `width * height` pixels.
    /// Nothing in this crate checks or relies on it; a backend that reads the
    /// pixels does.
    pub open spec fn has_rgba_layout(self) -> bool {
        &&& 0 <= self.width
        &&& 0 <= self.height
        &&& self.pixels.len() == self.width * self.height * 4
    }
}

/// A raster image used as a fill or stroke source.
#[derive(Debug, PartialEq, Eq)]
pub struct SurfaceStyle {
    pub surface_data: Vec<u8>,
    pub surface_size: Size2D<i32>,
    pub repeat_x: bool,
    pub repeat_y: bool,
}

impl View for SurfaceStyle {
    type V = SurfaceModel;

    open spec fn view(&self) -> SurfaceModel {
        SurfaceModel {
            pixels: self.surface_data@,
            width: self.surface_size.width as int,
            height: self.surface_size.height as int,
            repeat_x: self.repeat_x,
            repeat_y: self.repeat_y,
        }
    }
}

impl SurfaceStyle {
    /// A surface style that owns `surface_data`.
    pub fn new(
        surface_data: Vec<u8>,
        surface_size: Size2D<i32>,
        repeat_x: bool,
        repeat_y: bool,
    ) -> (style: SurfaceStyle)
        ensures
            style.surface_data == surface_data,
            style.surface_size == surface_size,
            style.repeat_x == repeat_x,
            style.repeat_y == repeat_y,
    {
        SurfaceStyle { surface_data, surface_size, repeat_x, repeat_y }
    }
}

impl Clone for SurfaceStyle {
    /// An independent copy: same bytes, same size, same flags.
    fn clone(&self) -> (copy: SurfaceStyle)
        ensures
            copy@ == self@,
    {
        SurfaceStyle {
            surface_data: self.surface_data.clone(),
            surface_size: self.surface_size,
            repeat_x: self.repeat_x,
            repeat_y: self.repeat_y,
        }
    }
}

/// What a fill or stroke draws with.
#[derive(Debug, PartialEq, Eq)]
pub enum FillOrStrokeStyle {
    /// A raster image, tiled as its flags say.
    Surface(SurfaceStyle),
}

/// The mathematical model of a [`FillOrStrokeStyle`].
#[verifier::ext_equal]
pub enum PaintModel {
    Surface(SurfaceModel),
}

impl View for FillOrStrokeStyle {
    type V = PaintModel;

    open spec fn view(&self) -> PaintModel {
        match self {
            FillOrStrokeStyle::Surface(surface) => PaintModel::Surface(surface@),
        }
    }
}

impl Clone for FillOrStrokeStyle {
    /// An independent copy of the same style.
    fn clone(&self) -> (copy: FillOrStrokeStyle)
        ensures
            copy@ == self@,
    {
        match self {
            FillOrStrokeStyle::Surface(surface) => FillOrStrokeStyle::Surface(surface.clone()),
        }
    }
}

} // verus!
