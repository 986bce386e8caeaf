use canvas_pattern::{CanvasPattern, RepetitionStyle};
use euclid::default::Size2D;

fn flags_of(repeat: RepetitionStyle) -> (bool, bool) {
    let pattern = CanvasPattern::new(vec![1, 2, 3, 4], Size2D::new(1, 1), repeat);
    (pattern.repeat_x(), pattern.repeat_y())
}

#[test]
fn repeat_tiles_both_axes() {
    assert_eq!(flags_of(RepetitionStyle::Repeat), (true, true));
}

#[test]
fn repeat_x_tiles_horizontally_only() {
    assert_eq!(flags_of(RepetitionStyle::RepeatX), (true, false));
}

#[test]
fn repeat_y_tiles_vertically_only() {
    assert_eq!(flags_of(RepetitionStyle::RepeatY), (false, true));
}

#[test]
fn no_repeat_tiles_neither_axis() {
    assert_eq!(flags_of(RepetitionStyle::NoRepeat), (false, false));
}

#[test]
fn decompose_gives_horizontal_flag_first() {
    assert_eq!(RepetitionStyle::Repeat.decompose(), (true, true));
    assert_eq!(RepetitionStyle::RepeatX.decompose(), (true, false));
    assert_eq!(RepetitionStyle::RepeatY.decompose(), (false, true));
    assert_eq!(RepetitionStyle::NoRepeat.decompose(), (false, false));
}

#[test]
fn flags_do_not_depend_on_the_buffer() {
    let buffers: Vec<(Vec<u8>, Size2D<i32>)> = vec![
        (Vec::new(), Size2D::new(0, 0)),
        (vec![9, 8, 7, 6, 5, 4, 3, 2], Size2D::new(2, 1)),
        (vec![0; 48], Size2D::new(3, 4)),
        (vec![1, 2, 3], Size2D::new(5, 5)),
    ];
    for (data, size) in buffers {
        let off = CanvasPattern::new(data.clone(), size, RepetitionStyle::NoRepeat);
        assert_eq!((off.repeat_x(), off.repeat_y()), (false, false));
        let on = CanvasPattern::new(data, size, RepetitionStyle::Repeat);
        assert_eq!((on.repeat_x(), on.repeat_y()), (true, true));
    }
}

#[test]
fn repetition_styles_compare_and_copy() {
    let style = RepetitionStyle::RepeatX;
    let copy = style;
    assert_eq!(style, copy);
    assert_ne!(RepetitionStyle::RepeatX, RepetitionStyle::RepeatY);
    assert_ne!(RepetitionStyle::Repeat, RepetitionStyle::NoRepeat);
}
