use afl_tui::layout::{emblem_columns, square_in, Rect};

#[test]
fn square_in_fills_an_aspect_correct_column() {
    // A 2:1 column (width == 2*height) should be filled exactly, no offset.
    let r = square_in(Rect::new(10, 3, 14, 7));
    assert_eq!(r, Rect::new(10, 3, 14, 7));
}

#[test]
fn square_in_centres_within_an_oversized_column() {
    // A too-wide column keeps the ~square footprint and centres it.
    let r = square_in(Rect::new(0, 0, 30, 7));
    assert_eq!(r.width, 14); // height * 2
    assert_eq!(r.height, 7);
    assert_eq!(r.x, 8); // (30 - 14) / 2
    assert_eq!(r.y, 0);
}

#[test]
fn square_in_is_height_limited_when_narrow() {
    // A narrow column shrinks height to keep the 2:1 ratio and centres it.
    let r = square_in(Rect::new(0, 0, 8, 7));
    assert_eq!(r.width, 8);
    assert_eq!(r.height, 4); // width / 2
    assert_eq!(r.y, 1); // (7 - 4) / 2
}

#[test]
fn square_in_keeps_at_least_one_cell() {
    let r = square_in(Rect::new(5, 5, 1, 1));
    assert_eq!(r, Rect::new(5, 5, 1, 1));
}

#[test]
fn emblems_flank_the_score_only_when_they_fit() {
    // 7 rows: emblems 14 wide each, plus the 46-wide score block.
    assert_eq!(emblem_columns(74, 7), Some(14));
    assert_eq!(emblem_columns(73, 7), None);
    assert_eq!(emblem_columns(200, 0), None);
    assert_eq!(emblem_columns(u16::MAX, 40000), None);
}
