use text2gif::glyph::GlyphRecord;
use text2gif::script::Script;

fn glyph(c: char, w: i32, h: i32, fill: u8) -> GlyphRecord {
    GlyphRecord::from_bitmap(c, w, h, vec![fill; (w * h) as usize]).unwrap()
}

#[test]
fn canvas_is_the_largest_width_and_height() {
    let s = Script::from_glyphs(vec![glyph('H', 3, 2, 1), glyph('i', 1, 5, 2)]);
    assert_eq!(s.len(), 2);
    assert_eq!(s.canvas_width(), 3);
    assert_eq!(s.canvas_height(), 5);
}

#[test]
fn canvas_does_not_depend_on_order() {
    let a = Script::from_glyphs(vec![glyph('a', 4, 1, 0), glyph('b', 2, 9, 0), glyph('c', 3, 3, 0)]);
    let b = Script::from_glyphs(vec![glyph('c', 3, 3, 0), glyph('a', 4, 1, 0), glyph('b', 2, 9, 0)]);
    assert_eq!((a.canvas_width(), a.canvas_height()), (4, 9));
    assert_eq!((b.canvas_width(), b.canvas_height()), (4, 9));
}

#[test]
fn glyphs_keep_their_order() {
    let s = Script::from_glyphs(vec![glyph('x', 1, 1, 1), glyph('y', 2, 2, 2), glyph('z', 3, 3, 3)]);
    let chars: Vec<char> = s.glyphs().iter().map(|g| g.character()).collect();
    assert_eq!(chars, vec!['x', 'y', 'z']);
    assert_eq!(s.glyphs()[1].coverage(), &vec![2, 2, 2, 2]);
}

#[test]
fn empty_script_has_no_glyph_and_no_canvas() {
    let s = Script::from_glyphs(Vec::new());
    assert_eq!(s.len(), 0);
    assert!(s.is_empty());
    assert_eq!(s.canvas_width(), 0);
    assert_eq!(s.canvas_height(), 0);
}

#[test]
fn single_placeholder_gives_one_pixel_canvas() {
    let s = Script::from_glyphs(vec![GlyphRecord::placeholder(' ')]);
    assert_eq!(s.len(), 1);
    assert!(!s.is_empty());
    assert_eq!((s.canvas_width(), s.canvas_height()), (1, 1));
}
