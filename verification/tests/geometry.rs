use anonpic::geometry::{circle_rect, lparam_to_point, normalized_rect, Point, Rect};

#[test]
fn decodes_signed_mouse_coordinates() {
    let packed = ((34_i16 as u16 as isize) << 16) | (-12_i16 as u16 as isize);
    let point = lparam_to_point(packed);

    assert_eq!((point.x, point.y), (-12, 34));
}

#[test]
fn normalizes_reversed_points() {
    let region = normalized_rect(Point { x: 40, y: 30 }, Point { x: 10, y: 5 });

    assert_eq!((region.left, region.top, region.right, region.bottom), (10, 5, 40, 30));
}

#[test]
fn clamps_circle_to_bounds() {
    let bounds = Rect { left: 0, top: 0, right: 100, bottom: 80 };
    let region = circle_rect(Point { x: 20, y: 40 }, Point { x: 90, y: 40 }, &bounds);

    assert_eq!((region.left, region.top, region.right, region.bottom), (0, 20, 40, 60));
}

#[test]
fn decodes_extreme_words() {
    let packed = ((0x8000_u16 as isize) << 16) | (0x7FFF_u16 as isize);
    let point = lparam_to_point(packed);
    assert_eq!((point.x, point.y), (32767, -32768));

    let all_ones = lparam_to_point(0xFFFF_FFFF_isize);
    assert_eq!((all_ones.x, all_ones.y), (-1, -1));

    let origin = lparam_to_point(0);
    assert_eq!((origin.x, origin.y), (0, 0));
}

#[test]
fn high_bits_beyond_the_two_words_are_ignored() {
    let packed = (1_isize << 40) | ((5_u16 as isize) << 16) | (7_u16 as isize);
    let point = lparam_to_point(packed);
    assert_eq!((point.x, point.y), (7, 5));
}

#[test]
fn normalized_rect_keeps_ordered_points() {
    let region = normalized_rect(Point { x: -5, y: 2 }, Point { x: 3, y: 9 });
    assert_eq!(region, Rect { left: -5, top: 2, right: 3, bottom: 9 });
    let same = normalized_rect(Point { x: 4, y: 4 }, Point { x: 4, y: 4 });
    assert_eq!(same, Rect { left: 4, top: 4, right: 4, bottom: 4 });
}

#[test]
fn circle_radius_is_the_rounded_down_distance() {
    let bounds = Rect { left: 0, top: 0, right: 1000, bottom: 1000 };
    // Distance 5 exactly (3-4-5 triangle).
    let exact = circle_rect(Point { x: 500, y: 500 }, Point { x: 503, y: 504 }, &bounds);
    assert_eq!(exact, Rect { left: 495, top: 495, right: 505, bottom: 505 });
    // Distance sqrt(2) rounds down to 1.
    let rounded = circle_rect(Point { x: 500, y: 500 }, Point { x: 501, y: 501 }, &bounds);
    assert_eq!(rounded, Rect { left: 499, top: 499, right: 501, bottom: 501 });
    // Same point: empty square at the center.
    let empty = circle_rect(Point { x: 10, y: 10 }, Point { x: 10, y: 10 }, &bounds);
    assert_eq!(empty, Rect { left: 10, top: 10, right: 10, bottom: 10 });
}

#[test]
fn circle_outside_bounds_collapses_to_its_center() {
    let bounds = Rect { left: 0, top: 0, right: 100, bottom: 80 };
    let region = circle_rect(Point { x: 150, y: 40 }, Point { x: 160, y: 40 }, &bounds);
    assert_eq!(region, Rect { left: 150, top: 40, right: 150, bottom: 40 });
}
