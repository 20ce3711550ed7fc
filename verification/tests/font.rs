use text2gif::color::parse_color;
use text2gif::error::RenderError;
use text2gif::palette::build_palette;
use text2gif::font::{
    glyph_or_missing, rasterize, set_render_size, size_outcome, MISSING_GLYPH,
};
use text2gif::script::Script;

// A bitmap font with four glyphs: a stem for `H` (one pixel wide, five
// rows), a dot for `i` (one pixel wide, three rows), which also stands in for
// missing characters, a space without ink, and a bar eight pixels wide. The engine hands bitmap
// fonts out one bit per pixel, so only glyphs one pixel wide have a byte per
// pixel.
const FONT: &str = "STARTFONT 2.1
FONT -misc-tiny-medium-r-normal--43-320-96-96-c-80-iso10646-1
SIZE 32 96 96
FONTBOUNDINGBOX 8 8 0 0
STARTPROPERTIES 9
PIXEL_SIZE 43
POINT_SIZE 320
RESOLUTION_X 96
RESOLUTION_Y 96
FONT_ASCENT 8
DEFAULT_CHAR 105
FONT_DESCENT 0
CHARSET_REGISTRY \"ISO10646\"
CHARSET_ENCODING \"1\"
ENDPROPERTIES
CHARS 4
STARTCHAR stem
ENCODING 72
SWIDTH 250 0
DWIDTH 2 0
BBX 1 5 0 0
BITMAP
80
80
00
80
80
ENDCHAR
STARTCHAR dot
ENCODING 105
SWIDTH 250 0
DWIDTH 2 0
BBX 1 3 0 0
BITMAP
80
00
80
ENDCHAR
STARTCHAR space
ENCODING 32
SWIDTH 250 0
DWIDTH 2 0
BBX 0 0 0 0
BITMAP
ENDCHAR
STARTCHAR bar
ENCODING 45
SWIDTH 1000 0
DWIDTH 8 0
BBX 8 2 0 0
BITMAP
FF
FF
ENDCHAR
ENDFONT
";

// The same kind of font in another size: 8 pixels.
const SMALL_FONT: &str = "STARTFONT 2.1
FONT -misc-tiny-medium-r-normal--8-80-75-75-c-80-iso10646-1
SIZE 8 75 75
FONTBOUNDINGBOX 8 8 0 0
STARTPROPERTIES 4
FONT_ASCENT 8
FONT_DESCENT 0
CHARSET_REGISTRY \"ISO10646\"
CHARSET_ENCODING \"1\"
ENDPROPERTIES
CHARS 1
STARTCHAR dot
ENCODING 105
SWIDTH 250 0
DWIDTH 2 0
BBX 1 3 0 0
BITMAP
80
00
80
ENDCHAR
ENDFONT
";

fn open(lib: &freetype::Library) -> freetype::Face {
    let face = lib.new_memory_face(FONT.as_bytes().to_vec(), 0).unwrap();
    set_render_size(&face).unwrap();
    face
}

#[test]
fn face_takes_the_render_size() {
    let lib = freetype::Library::init().unwrap();
    let face = lib.new_memory_face(FONT.as_bytes().to_vec(), 0).unwrap();
    assert_eq!(set_render_size(&face), Ok(()));
    let metrics = face.size_metrics().unwrap();
    assert_eq!(metrics.y_ppem, 43);
}

#[test]
fn face_without_the_render_size_is_refused() {
    let lib = freetype::Library::init().unwrap();
    let face = lib.new_memory_face(SMALL_FONT.as_bytes().to_vec(), 0).unwrap();
    assert_eq!(set_render_size(&face), Err(RenderError::FontLoadFailure));
}

#[test]
fn engine_bitmap_becomes_record() {
    let lib = freetype::Library::init().unwrap();
    let face = open(&lib);
    let g = rasterize(&face, 'i').unwrap();
    assert_eq!(g.character(), 'i');
    assert_eq!(g.width(), 1);
    assert_eq!(g.height(), 3);
    assert_eq!(g.coverage(), &vec![0x80, 0x00, 0x80]);
}

#[test]
fn glyph_without_ink_becomes_placeholder() {
    let lib = freetype::Library::init().unwrap();
    let face = open(&lib);
    let g = rasterize(&face, ' ').unwrap();
    assert_eq!(g.character(), ' ');
    assert_eq!(g.width(), 1);
    assert_eq!(g.height(), 1);
    assert_eq!(g.coverage(), &vec![0]);
}

#[test]
fn bitmap_with_too_few_bytes_is_a_failure() {
    let lib = freetype::Library::init().unwrap();
    let face = open(&lib);
    assert!(matches!(rasterize(&face, '-'), Err(RenderError::RasterizationFailure)));
}

#[test]
fn script_has_one_glyph_per_character() {
    let lib = freetype::Library::init().unwrap();
    let face = open(&lib);
    let s = Script::from("i i", &face).unwrap();
    assert_eq!(s.len(), 3);
    let chars: Vec<char> = s.glyphs().iter().map(|g| g.character()).collect();
    assert_eq!(chars, vec!['i', ' ', 'i']);
    assert_eq!(s.canvas_width(), 1);
    assert_eq!(s.canvas_height(), 3);
    assert_eq!(s.glyphs()[0].coverage(), &vec![0x80, 0x00, 0x80]);
    assert_eq!(s.glyphs()[1].coverage(), &vec![0]);
    assert_eq!(s.glyphs()[2].coverage(), &vec![0x80, 0x00, 0x80]);
}

#[test]
fn empty_text_gives_empty_script() {
    let lib = freetype::Library::init().unwrap();
    let face = open(&lib);
    let s = Script::from("", &face).unwrap();
    assert_eq!(s.len(), 0);
    assert_eq!(s.canvas_width(), 0);
    assert_eq!(s.canvas_height(), 0);
    let bytes = s.render_gif((255, 255, 255), (0, 0, 0)).unwrap();
    assert_eq!(&bytes[0..6], b"GIF89a");
}

#[test]
fn one_failing_character_fails_the_script() {
    let lib = freetype::Library::init().unwrap();
    let face = open(&lib);
    assert!(matches!(Script::from("i-i", &face), Err(RenderError::RasterizationFailure)));
}

#[test]
fn unmapped_character_is_drawn_as_the_missing_glyph() {
    let lib = freetype::Library::init().unwrap();
    let face = open(&lib);
    assert_eq!(face.get_char_index(0x4e2d), None);
    // The font names the dot as its stand-in for characters it lacks.
    let g = rasterize(&face, '\u{4e2d}').unwrap();
    assert_eq!(g.character(), '\u{4e2d}');
    assert_eq!((g.width(), g.height()), (1, 3));
    assert_eq!(g.coverage(), &vec![0x80, 0x00, 0x80]);
    let s = Script::from("\u{4e2d} ", &face).unwrap();
    assert_eq!(s.len(), 2);
    assert_eq!((s.canvas_width(), s.canvas_height()), (1, 3));
}

#[test]
fn text_renders_to_frames_in_order() {
    let lib = freetype::Library::init().unwrap();
    let face = open(&lib);
    let s = Script::from("i ", &face).unwrap();
    let bytes = s.render_gif((255, 255, 255), (0, 0, 0)).unwrap();
    let mut reader = match gif::Decoder::new(&bytes[..]).read_info() {
        Ok(r) => r,
        Err(_) => panic!("the stream has no readable header"),
    };
    assert_eq!((reader.width(), reader.height()), (1, 3));
    let first = match reader.read_next_frame() {
        Ok(Some(f)) => f.buffer.to_vec(),
        _ => panic!("the first frame is missing"),
    };
    assert_eq!(first, vec![0x80, 0x00, 0x80]);
    let second = match reader.read_next_frame() {
        Ok(Some(f)) => f.buffer.to_vec(),
        _ => panic!("the second frame is missing"),
    };
    assert_eq!(second, vec![0, 0, 0]);
    assert!(matches!(reader.read_next_frame(), Ok(None)));
}

#[test]
fn hi_in_white_on_black() {
    let lib = freetype::Library::init().unwrap();
    let face = open(&lib);
    let fg = parse_color("0xFFFFFF").unwrap();
    let bg = parse_color("0x000000").unwrap();
    let palette = build_palette(fg, bg);
    assert_eq!(&palette[0..3], &[0, 0, 0]);
    assert_eq!(&palette[765..768], &[255, 255, 255]);
    assert_eq!(&palette[384..387], &[128, 128, 128]);

    let s = Script::from("Hi", &face).unwrap();
    assert_eq!(s.len(), 2);
    let h = &s.glyphs()[0];
    let i = &s.glyphs()[1];
    assert_eq!((h.character(), h.width(), h.height()), ('H', 1, 5));
    assert_eq!((i.character(), i.width(), i.height()), ('i', 1, 3));
    assert_eq!(s.canvas_width(), h.width().max(i.width()));
    assert_eq!(s.canvas_height(), h.height().max(i.height()));
    assert_eq!((s.canvas_width(), s.canvas_height()), (1, 5));

    let bytes = s.render_gif(fg, bg).unwrap();
    let mut reader = match gif::Decoder::new(&bytes[..]).read_info() {
        Ok(r) => r,
        Err(_) => panic!("the stream has no readable header"),
    };
    assert_eq!((reader.width(), reader.height()), (1, 5));
    assert_eq!(reader.global_palette().map(|p| p.to_vec()), Some(palette));
    let mut frames: Vec<Vec<u8>> = Vec::new();
    loop {
        match reader.read_next_frame() {
            Ok(Some(f)) => frames.push(f.buffer.to_vec()),
            Ok(None) => break,
            Err(_) => panic!("a frame cannot be read"),
        }
    }
    assert_eq!(frames.len(), 2);
    assert_eq!(frames[0], vec![0x80, 0x80, 0x00, 0x80, 0x80]);
    assert_eq!(frames[1], vec![0x00, 0x80, 0x00, 0x80, 0x00]);
}

#[test]
fn accepted_size_is_success() {
    assert_eq!(size_outcome(Ok(())), Ok(()));
}

#[test]
fn any_refused_size_is_a_font_load_failure() {
    assert_eq!(
        size_outcome(Err(freetype::Error::InvalidPixelSize)),
        Err(RenderError::FontLoadFailure)
    );
    assert_eq!(
        size_outcome(Err(freetype::Error::InvalidFaceHandle)),
        Err(RenderError::FontLoadFailure)
    );
    assert_eq!(
        size_outcome(Err(freetype::Error::OutOfMemory)),
        Err(RenderError::FontLoadFailure)
    );
}

#[test]
fn unmapped_character_takes_the_missing_glyph() {
    assert_eq!(MISSING_GLYPH, 0);
    assert_eq!(glyph_or_missing(None), 0);
    assert_eq!(glyph_or_missing(Some(0)), 0);
    assert_eq!(glyph_or_missing(Some(3)), 3);
    assert_eq!(glyph_or_missing(Some(u32::MAX)), u32::MAX);
}

#[test]
fn charmap_answer_selects_the_glyph() {
    let lib = freetype::Library::init().unwrap();
    let face = open(&lib);
    assert_eq!(glyph_or_missing(face.get_char_index('i' as usize)), 4);
    assert_eq!(glyph_or_missing(face.get_char_index(0x4e2d)), 0);
}
