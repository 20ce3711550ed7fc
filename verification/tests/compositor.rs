use text2gif::compositor::{composite, dest_coord, dest_index};
use text2gif::glyph::GlyphRecord;

#[test]
fn coordinate_is_centred() {
    assert_eq!(dest_coord(4, 2, 0), Some(1));
    assert_eq!(dest_coord(4, 2, 1), Some(2));
    assert_eq!(dest_coord(10, 4, 0), Some(3));
    assert_eq!(dest_coord(10, 10, 9), Some(9));
}

#[test]
fn odd_difference_rounds_down() {
    assert_eq!(dest_coord(5, 2, 0), Some(1));
    assert_eq!(dest_coord(5, 2, 1), Some(2));
    assert_eq!(dest_coord(4, 1, 0), Some(1));
}

#[test]
fn coordinate_off_the_axis_is_dropped() {
    // A span of 3 on an axis of 2 starts one position before the axis.
    assert_eq!(dest_coord(2, 3, 0), None);
    assert_eq!(dest_coord(2, 3, 1), Some(0));
    assert_eq!(dest_coord(2, 3, 2), Some(1));
    // A span of 6 on an axis of 2 starts two positions before it.
    assert_eq!(dest_coord(2, 6, 1), None);
    assert_eq!(dest_coord(2, 6, 2), Some(0));
    assert_eq!(dest_coord(2, 6, 3), Some(1));
    assert_eq!(dest_coord(2, 6, 4), None);
    assert_eq!(dest_coord(0, 1, 0), None);
    assert_eq!(dest_coord(0, 0, 0), None);
    // Positions beyond the span are mapped all the same, and dropped once
    // they leave the axis.
    assert_eq!(dest_coord(4, 2, 2), Some(3));
    assert_eq!(dest_coord(4, 2, 3), None);
}

#[test]
fn index_is_row_major() {
    assert_eq!(dest_index(2, 2, 4, 4, 0, 0), Some(5));
    assert_eq!(dest_index(2, 2, 4, 4, 1, 0), Some(6));
    assert_eq!(dest_index(2, 2, 4, 4, 0, 1), Some(9));
    assert_eq!(dest_index(2, 2, 4, 4, 1, 1), Some(10));
    assert_eq!(dest_index(1, 1, 7, 3, 0, 0), Some(10));
}

#[test]
fn index_outside_canvas_is_dropped() {
    assert_eq!(dest_index(3, 1, 2, 1, 0, 0), None);
    assert_eq!(dest_index(3, 1, 2, 1, 1, 0), Some(0));
    assert_eq!(dest_index(1, 3, 1, 2, 0, 0), None);
    assert_eq!(dest_index(1, 3, 1, 2, 0, 2), Some(1));
    assert_eq!(dest_index(1, 1, 0, 0, 0, 0), None);
}

#[test]
fn first_pixel_lands_on_the_centring_offset() {
    let sizes = [(1usize, 1usize), (2, 3), (5, 4), (7, 7)];
    let canvases = [(7usize, 7usize), (8, 9), (20, 11)];
    for &(w, h) in sizes.iter() {
        for &(cw, ch) in canvases.iter() {
            let expected = ((ch - h) / 2) * cw + (cw - w) / 2;
            assert_eq!(dest_index(w, h, cw, ch, 0, 0), Some(expected));
        }
    }
}

#[test]
fn glyph_is_centred_on_canvas() {
    let g = GlyphRecord::from_bitmap('a', 2, 2, vec![1, 2, 3, 4]).unwrap();
    let out = composite(&g, 4, 4);
    assert_eq!(out, vec![0, 0, 0, 0, 0, 1, 2, 0, 0, 3, 4, 0, 0, 0, 0, 0]);
}

#[test]
fn odd_margins_put_the_extra_pixel_last() {
    let g = GlyphRecord::from_bitmap('a', 2, 1, vec![7, 9]).unwrap();
    let out = composite(&g, 5, 4);
    let mut expected = vec![0u8; 20];
    expected[6] = 7;
    expected[7] = 9;
    assert_eq!(out, expected);
}

#[test]
fn glyph_of_canvas_size_is_copied() {
    let g = GlyphRecord::from_bitmap('a', 3, 2, vec![10, 20, 30, 40, 50, 60]).unwrap();
    assert_eq!(composite(&g, 3, 2), vec![10, 20, 30, 40, 50, 60]);
}

#[test]
fn uncovered_pixels_are_background() {
    let g = GlyphRecord::from_bitmap('i', 1, 3, vec![255, 255, 255]).unwrap();
    let out = composite(&g, 3, 3);
    assert_eq!(out, vec![0, 255, 0, 0, 255, 0, 0, 255, 0]);
}

#[test]
fn placeholder_gives_blank_frame() {
    let g = GlyphRecord::placeholder(' ');
    assert_eq!(composite(&g, 3, 2), vec![0, 0, 0, 0, 0, 0]);
}

#[test]
fn pixels_outside_a_smaller_canvas_are_dropped() {
    let wide = GlyphRecord::from_bitmap('w', 4, 1, vec![1, 2, 3, 4]).unwrap();
    assert_eq!(composite(&wide, 2, 1), vec![2, 3]);
    let odd = GlyphRecord::from_bitmap('w', 3, 1, vec![1, 2, 3]).unwrap();
    assert_eq!(composite(&odd, 2, 1), vec![2, 3]);
    let tall = GlyphRecord::from_bitmap('t', 1, 3, vec![1, 2, 3]).unwrap();
    assert_eq!(composite(&tall, 3, 1), vec![0, 2, 0]);
}

#[test]
fn empty_canvas_gives_empty_buffer() {
    let g = GlyphRecord::from_bitmap('a', 2, 2, vec![1, 2, 3, 4]).unwrap();
    assert_eq!(composite(&g, 0, 0), Vec::<u8>::new());
    assert_eq!(composite(&g, 0, 5), Vec::<u8>::new());
    assert_eq!(composite(&g, 5, 0), Vec::<u8>::new());
}

#[test]
fn compositing_is_repeatable() {
    let g = GlyphRecord::from_bitmap('a', 2, 3, vec![1, 2, 3, 4, 5, 6]).unwrap();
    assert_eq!(composite(&g, 6, 5), composite(&g, 6, 5));
}
