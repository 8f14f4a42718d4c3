use anonpic::pixels::{apply_circle_mask, bgra_byte_count, dib_layout, DibLayout, DIB_HEADER_SIZE};

fn pixel(buf: &[u8], w: usize, x: usize, y: usize) -> [u8; 4] {
    let o = (y * w + x) * 4;
    [buf[o], buf[o + 1], buf[o + 2], buf[o + 3]]
}

fn is_corner(x: usize, y: usize) -> bool {
    (x == 0 || x == 3) && (y == 0 || y == 3)
}

#[test]
fn transparent_mask_clears_the_corners() {
    let mut buf = vec![7u8; 4 * 4 * 4];
    apply_circle_mask(&mut buf, 4, 4, true);
    for y in 0..4 {
        for x in 0..4 {
            let p = pixel(&buf, 4, x, y);
            if is_corner(x, y) {
                assert_eq!(p, [0, 0, 0, 0], "corner ({x}, {y})");
            } else {
                assert_eq!(p, [7, 7, 7, 255], "inside ({x}, {y})");
            }
        }
    }
}

#[test]
fn opaque_mask_whitens_the_corners_and_keeps_their_alpha() {
    let mut buf = vec![7u8; 4 * 4 * 4];
    apply_circle_mask(&mut buf, 4, 4, false);
    assert_eq!(pixel(&buf, 4, 0, 0), [255, 255, 255, 7]);
    assert_eq!(pixel(&buf, 4, 3, 3), [255, 255, 255, 7]);
    assert_eq!(pixel(&buf, 4, 1, 0), [7, 7, 7, 255]);
    assert_eq!(pixel(&buf, 4, 2, 2), [7, 7, 7, 255]);
}

#[test]
fn mask_uses_the_shorter_side_as_diameter() {
    // A 6 x 2 strip: the circle has diameter 2 and is centered at (3, 1).
    let mut buf = vec![9u8; 6 * 2 * 4];
    apply_circle_mask(&mut buf, 6, 2, true);
    for y in 0..2 {
        for x in 0..6 {
            let p = pixel(&buf, 6, x, y);
            if x == 2 || x == 3 {
                assert_eq!(p, [9, 9, 9, 255], "inside ({x}, {y})");
            } else {
                assert_eq!(p, [0, 0, 0, 0], "outside ({x}, {y})");
            }
        }
    }
}

#[test]
fn mask_leaves_trailing_bytes_alone() {
    let mut buf = vec![5u8; 2 * 2 * 4 + 3];
    apply_circle_mask(&mut buf, 2, 2, true);
    assert_eq!(&buf[16..], &[5, 5, 5]);
    assert_eq!(pixel(&buf, 2, 0, 0), [5, 5, 5, 255]);
}

#[test]
fn mask_of_an_empty_image_changes_nothing() {
    let mut buf = vec![1u8, 2, 3, 4];
    apply_circle_mask(&mut buf, 0, 5, true);
    assert_eq!(buf, vec![1, 2, 3, 4]);
    apply_circle_mask(&mut buf, 5, -1, false);
    assert_eq!(buf, vec![1, 2, 3, 4]);
}

#[test]
fn bgra_buffers_hold_four_bytes_per_pixel() {
    assert_eq!(bgra_byte_count(3, 2), Some(24));
    assert_eq!(bgra_byte_count(1920, 1080), Some(8_294_400));
    assert_eq!(bgra_byte_count(0, 5), None);
    assert_eq!(bgra_byte_count(-1, 5), None);
    assert_eq!(bgra_byte_count(5, 0), None);
}

#[test]
fn dib_rows_are_padded_to_whole_words() {
    assert_eq!(dib_layout(3, 2), Some(DibLayout { stride: 12, image_size: 24, allocation_size: 64 }));
    assert_eq!(dib_layout(1, 1), Some(DibLayout { stride: 4, image_size: 4, allocation_size: 44 }));
    assert_eq!(dib_layout(4, 1), Some(DibLayout { stride: 12, image_size: 12, allocation_size: 52 }));
    assert_eq!(DIB_HEADER_SIZE, 40);
}

#[test]
fn dib_layout_rejects_empty_or_oversized_bitmaps() {
    assert_eq!(dib_layout(0, 1), None);
    assert_eq!(dib_layout(1, -3), None);
    assert_eq!(dib_layout(i32::MAX, i32::MAX), None);
}

#[test]
fn dib_rows_are_padded_words() {
    for w in 1..200 {
        let layout = dib_layout(w, 1).unwrap();
        assert_eq!(layout.stride % 4, 0);
        assert!(3 * w as usize <= layout.stride && layout.stride < 3 * w as usize + 4);
    }
    assert_eq!(dib_layout(5, 1).unwrap().stride, 16);
}
