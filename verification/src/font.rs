//! The glyph source: a FreeType face that turns a character into a coverage
//! bitmap.
//!
//! Nothing is known here of what the font engine draws. Each call into it is
//! a small function of its own whose result is taken as it comes; what the
//! library makes of a reported bitmap is decided by
//! [`GlyphRecord::from_bitmap`].

use vstd::prelude::*;
use crate::error::RenderError;
use crate::glyph::GlyphRecord;

verus! {

/// `freetype::face::Face`: an open font face. Opaque to the verifier.
#[verifier::external_type_specification]
#[verifier::external_body]
#[verifier::reject_recursive_types(BYTES)]
pub struct ExFace<BYTES>(freetype::face::Face<BYTES>);

/// `freetype::GlyphSlot`: the slot of a face into which glyphs are loaded.
/// Opaque to the verifier.
#[verifier::external_type_specification]
#[verifier::external_body]
pub struct ExGlyphSlot(freetype::GlyphSlot);

/// `freetype::Bitmap`: the bitmap descriptor of a glyph slot. Opaque to the
/// verifier.
#[verifier::external_type_specification]
#[verifier::external_body]
pub struct ExBitmap(freetype::Bitmap);

/// `freetype::Error`: the font engine's error code. Opaque to the verifier.
#[verifier::external_type_specification]
#[verifier::external_body]
pub struct ExFontError(freetype::Error);

/// Size at which characters are drawn, in points.
pub const CHAR_SIZE_POINTS: isize = 32;

/// Resolution of the device the animation is made for, in dots per inch.
pub const DEVICE_DPI: u32 = 96;

/// Calls `Face::set_char_size`. Nothing is claimed of the outcome.
#[verifier::external_body]
fn set_char_size(
    face: &freetype::face::Face,
    char_width: isize,
    char_height: isize,
    horz_resolution: u32,
    vert_resolution: u32,
) -> (r: Result<(), freetype::Error>) {
    face.set_char_size(char_width, char_height, horz_resolution, vert_resolution)
}

/// Calls `Face::get_char_index` with the character's scalar value. Nothing is
/// claimed of the index; `None` is what the face reports for a character that
/// its charmap does not hold.
#[verifier::external_body]
fn char_index(face: &freetype::face::Face, character: char) -> (r: Option<u32>) {
    face.get_char_index(character as usize)
}

/// Calls `Face::load_glyph` with the default load flags. Nothing is claimed of
/// the outcome.
#[verifier::external_body]
fn load_glyph(face: &freetype::face::Face, index: u32) -> (r: Result<(), freetype::Error>) {
    face.load_glyph(index, freetype::face::LoadFlag::DEFAULT)
}

/// Calls `Face::glyph`, which hands out the face's glyph slot.
#[verifier::external_body]
fn glyph_slot(face: &freetype::face::Face) -> (r: &freetype::GlyphSlot) {
    face.glyph()
}

/// Calls `GlyphSlot::render_glyph` in the normal mode, which asks for an
/// 8-bit coverage bitmap. Nothing is claimed of the outcome.
#[verifier::external_body]
fn render_glyph(slot: &freetype::GlyphSlot) -> (r: Result<(), freetype::Error>) {
    slot.render_glyph(freetype::RenderMode::Normal)
}

/// Calls `GlyphSlot::bitmap`, which hands out the slot's bitmap descriptor.
#[verifier::external_body]
fn slot_bitmap(slot: &freetype::GlyphSlot) -> (r: freetype::Bitmap) {
    slot.bitmap()
}

/// Calls `Bitmap::width`. Nothing is claimed of the number.
#[verifier::external_body]
fn bitmap_width(bitmap: &freetype::Bitmap) -> (r: i32) {
    bitmap.width()
}

/// Calls `Bitmap::rows`. Nothing is claimed of the number.
#[verifier::external_body]
fn bitmap_rows(bitmap: &freetype::Bitmap) -> (r: i32) {
    bitmap.rows()
}

/// Calls `Bitmap::buffer` and copies the bytes. Nothing is claimed of them,
/// nor of how many there are.
#[verifier::external_body]
fn bitmap_buffer(bitmap: &freetype::Bitmap) -> (r: Vec<u8>) {
    bitmap.buffer().to_vec()
}

/// Asks the face for the size of the animation: 32 points on a 96 dpi
/// device. The engine answers; [`size_outcome`] says what is made of that.
pub fn set_render_size(face: &freetype::face::Face) -> (r: Result<(), RenderError>)
    ensures
        r is Err ==> r == Err::<(), RenderError>(RenderError::FontLoadFailure),
{
    // The width is given in 1/64 of a point; a height of 0 means "same as
    // the width".
    size_outcome(set_char_size(face, CHAR_SIZE_POINTS * 64, 0, DEVICE_DPI, DEVICE_DPI))
}

/// What the library makes of the engine's answer to a size request: a face
/// that took the size can be used, and any refusal, whatever its code, means
/// that the font cannot be loaded for this animation.
pub fn size_outcome(answer: Result<(), freetype::Error>) -> (r: Result<(), RenderError>)
    ensures
        answer is Ok ==> r == Ok::<(), RenderError>(()),
        answer is Err ==> r == Err::<(), RenderError>(RenderError::FontLoadFailure),
{
    match answer {
        Ok(_) => Ok(()),
        Err(_) => Err(RenderError::FontLoadFailure),
    }
}

/// The index of the glyph that every face draws for a character it lacks.
pub const MISSING_GLYPH: u32 = 0;

/// The glyph to load for a character, given what the face's charmap found
/// for it: the glyph found, or the face's missing glyph where none was.
pub fn glyph_or_missing(found: Option<u32>) -> (r: u32)
    ensures
        r == match found {
            Some(i) => i,
            None => MISSING_GLYPH,
        },
{
    match found {
        Some(i) => i,
        None => MISSING_GLYPH,
    }
}

/// Rasterizes one character with the given face and makes its glyph record.
///
/// A character that the face does not map is drawn as the face's missing
/// glyph (see [`glyph_or_missing`]). A glyph without visible ink becomes the
/// one-pixel placeholder. The call fails if the engine cannot load or render
/// the glyph, or reports a bitmap that [`GlyphRecord::from_bitmap`] refuses.
pub fn rasterize(face: &freetype::face::Face, character: char) -> (r: Result<GlyphRecord, RenderError>)
    ensures
        match r {
            Ok(g) => g@.wf() && g@.character == character,
            Err(e) => e == RenderError::RasterizationFailure,
        },
{
    let index: u32 = glyph_or_missing(char_index(face, character));
    match load_glyph(face, index) {
        Ok(_) => {},
        Err(_) => {
            return Err(RenderError::RasterizationFailure);
        },
    }
    let slot = glyph_slot(face);
    match render_glyph(slot) {
        Ok(_) => {},
        Err(_) => {
            return Err(RenderError::RasterizationFailure);
        },
    }
    let bitmap = slot_bitmap(slot);
    let width = bitmap_width(&bitmap);
    let rows = bitmap_rows(&bitmap);
    let buffer = bitmap_buffer(&bitmap);
    match GlyphRecord::from_bitmap(character, width, rows, buffer) {
        Ok(g) => {
            proof {
                use_type_invariant(&g);
            }
            Ok(g)
        },
        Err(e) => Err(e),
    }
}

} // verus!
