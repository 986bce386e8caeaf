//! What holds of patterns and their styles in general.
//!
//! Each law is stated of the results of the crate's functions: a premise
//! `call_ensures(f, args, result)` says that `result` meets everything that
//! `f` promises of a call on `args`, so the law holds of whatever such a call
//! returns.

use crate::pattern::CanvasPattern;
use crate::style::{FillOrStrokeStyle, RepetitionStyle};
use euclid::default::Size2D;
use vstd::prelude::*;

verus! {

/// The repetition table. A pattern built with `Repeat` tiles along both axes,
/// with `RepeatX` only horizontally, with `RepeatY` only vertically, and with
/// `NoRepeat` along neither, whatever its bytes and size.
pub proof fn law_repetition_table(
    surface_data: Vec<u8>,
    surface_size: Size2D<i32>,
    repeat: RepetitionStyle,
    pattern: CanvasPattern,
)
    requires
        call_ensures(CanvasPattern::new, (surface_data, surface_size, repeat), pattern),
    ensures
        repeat == RepetitionStyle::Repeat ==> pattern@.repeat_x && pattern@.repeat_y,
        repeat == RepetitionStyle::RepeatX ==> pattern@.repeat_x && !pattern@.repeat_y,
        repeat == RepetitionStyle::RepeatY ==> !pattern@.repeat_x && pattern@.repeat_y,
        repeat == RepetitionStyle::NoRepeat ==> !pattern@.repeat_x && !pattern@.repeat_y,
{
}

/// Round trip. The style made from a newly built pattern is a surface that
/// holds the bytes and the size the pattern was built from, and the flags
/// that the repetition table gives for its repetition style.
pub proof fn law_style_round_trip(
    surface_data: Vec<u8>,
    surface_size: Size2D<i32>,
    repeat: RepetitionStyle,
    pattern: CanvasPattern,
    style: FillOrStrokeStyle,
)
    requires
        call_ensures(CanvasPattern::new, (surface_data, surface_size, repeat), pattern),
        call_ensures(CanvasPattern::to_fill_or_stroke_style, (&pattern,), style),
    ensures
        style matches FillOrStrokeStyle::Surface(surface) && {
            &&& surface.surface_data@ == surface_data@
            &&& surface.surface_size == surface_size
            &&& surface.repeat_x == (repeat == RepetitionStyle::Repeat || repeat
                == RepetitionStyle::RepeatX)
            &&& surface.repeat_y == (repeat == RepetitionStyle::Repeat || repeat
                == RepetitionStyle::RepeatY)
        },
{
}

/// Converting twice gives the same value twice: any two styles made from one
/// pattern are equal in bytes, size and flags.
pub proof fn law_conversion_repeatable(
    pattern: CanvasPattern,
    first: FillOrStrokeStyle,
    second: FillOrStrokeStyle,
)
    requires
        call_ensures(CanvasPattern::to_fill_or_stroke_style, (&pattern,), first),
        call_ensures(CanvasPattern::to_fill_or_stroke_style, (&pattern,), second),
    ensures
        first@ == second@,
{
}

/// The layout is the caller's, and it is carried over. A newly built pattern
/// has RGBA layout exactly when it was given four bytes for each pixel of a
/// size without a negative side, and the surface of a style made from it has
/// RGBA layout exactly when the pattern has.
pub proof fn law_layout_carried_over(
    surface_data: Vec<u8>,
    surface_size: Size2D<i32>,
    repeat: RepetitionStyle,
    pattern: CanvasPattern,
    style: FillOrStrokeStyle,
)
    requires
        call_ensures(CanvasPattern::new, (surface_data, surface_size, repeat), pattern),
        call_ensures(CanvasPattern::to_fill_or_stroke_style, (&pattern,), style),
    ensures
        pattern@.has_rgba_layout() <==> {
            &&& 0 <= surface_size.width
            &&& 0 <= surface_size.height
            &&& surface_data@.len() == surface_size.width * surface_size.height * 4
        },
        style matches FillOrStrokeStyle::Surface(surface) && (surface@.has_rgba_layout()
            <==> pattern@.has_rgba_layout()),
{
}

} // verus!
