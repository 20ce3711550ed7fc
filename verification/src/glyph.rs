//! Glyph records: the coverage bitmap of one character.

use vstd::prelude::*;
use crate::error::RenderError;

verus! {

/// What a glyph record holds, as mathematical values.
pub struct GlyphView {
    /// The character the bitmap was made for.
    pub character: char,
    /// Number of pixels in a row.
    pub width: nat,
    /// Number of rows.
    pub height: nat,
    /// Ink intensity of each pixel, row after row: 0 is background, 255 is
    /// foreground.
    pub coverage: Seq<u8>,
}

impl GlyphView {
    /// A record has positive area and one coverage byte per pixel.
    pub open spec fn wf(self) -> bool {
        &&& self.width > 0
        &&& self.height > 0
        &&& self.coverage.len() == self.width * self.height
    }

    /// The record that stands for a character without visible ink: a single
    /// pixel of zero coverage.
    pub open spec fn placeholder(character: char) -> GlyphView {
        GlyphView { character, width: 1, height: 1, coverage: seq![0u8] }
    }

    /// The coverage at column `gx` of row `gy`.
    pub open spec fn at(self, gx: int, gy: int) -> u8
        recommends
            0 <= gx < self.width,
            0 <= gy < self.height,
    {
        self.coverage[gy * self.width + gx]
    }
}

/// The record made from what a rasterizer reports for `character`: a bitmap of
/// `width` by `rows` pixels whose bytes start `buffer`.
///
/// A bitmap without area becomes the placeholder. A negative size, or a buffer
/// shorter than the area, gives no record.
pub open spec fn spec_from_bitmap(character: char, width: i32, rows: i32, buffer: Seq<u8>) -> Option<
    GlyphView,
> {
    if width == 0 || rows == 0 {
        Some(GlyphView::placeholder(character))
    } else if width < 0 || rows < 0 || buffer.len() < width * rows {
        None
    } else {
        Some(
            GlyphView {
                character,
                width: width as nat,
                height: rows as nat,
                coverage: buffer.subrange(0, width * rows),
            },
        )
    }
}

/// Normalization: a bitmap of zero width or zero rows always becomes the
/// placeholder, a single pixel of coverage 0; and every record that is made
/// is well formed and carries the character it was made for.
pub proof fn lemma_from_bitmap_normalizes(character: char, width: i32, rows: i32, buffer: Seq<u8>)
    ensures
        width == 0 || rows == 0 ==> spec_from_bitmap(character, width, rows, buffer) == Some(
            GlyphView::placeholder(character),
        ),
        GlyphView::placeholder(character).wf(),
        GlyphView::placeholder(character).width == 1,
        GlyphView::placeholder(character).height == 1,
        GlyphView::placeholder(character).coverage == seq![0u8],
        match spec_from_bitmap(character, width, rows, buffer) {
            Some(g) => g.wf() && g.character == character,
            None => true,
        },
{
    if width > 0 && rows > 0 {
        assert(width as nat * rows as nat == width * rows) by (nonlinear_arith)
            requires
                width > 0,
                rows > 0,
        ;
    }
}

/// The coverage bitmap of one character. It is never empty.
#[derive(Debug)]
pub struct GlyphRecord {
    character: char,
    width: usize,
    height: usize,
    coverage: Vec<u8>,
}

impl View for GlyphRecord {
    type V = GlyphView;

    closed spec fn view(&self) -> GlyphView {
        GlyphView {
            character: self.character,
            width: self.width as nat,
            height: self.height as nat,
            coverage: self.coverage@,
        }
    }
}

impl GlyphRecord {
    /// Every record in use is well formed.
    #[verifier::type_invariant]
    pub open spec fn inv(self) -> bool {
        self@.wf()
    }

    /// The record for a character without visible ink: one pixel of zero
    /// coverage.
    pub fn placeholder(character: char) -> (r: GlyphRecord)
        ensures
            r@ == GlyphView::placeholder(character),
    {
        let coverage: Vec<u8> = vec![0u8];
        assert(coverage@ =~= seq![0u8]);
        GlyphRecord { character, width: 1, height: 1, coverage }
    }

    /// Builds the record for `character` from the bitmap a rasterizer
    /// reported: its width, its number of rows, and its bytes.
    ///
    /// A bitmap of zero width or zero rows is replaced by the placeholder, so
    /// that every record has positive area. The coverage is the first
    /// `width * rows` bytes of `buffer`; a buffer that holds fewer, or a
    /// negative size, is a rasterization failure.
    pub fn from_bitmap(character: char, width: i32, rows: i32, buffer: Vec<u8>) -> (r: Result<
        GlyphRecord,
        RenderError,
    >)
        ensures
            match spec_from_bitmap(character, width, rows, buffer@) {
                Some(g) => r is Ok && r->Ok_0@ == g,
                None => r == Err::<GlyphRecord, RenderError>(RenderError::RasterizationFailure),
            },
    {
        if width == 0 || rows == 0 {
            return Ok(GlyphRecord::placeholder(character));
        }
        if width < 0 || rows < 0 {
            return Err(RenderError::RasterizationFailure);
        }
        let w: u64 = width as u64;
        let h: u64 = rows as u64;
        assert(w * h == width * rows && w * h <= 0x7fff_ffff * 0x7fff_ffff) by (nonlinear_arith)
            requires
                0 < w <= 0x7fff_ffff,
                0 < h <= 0x7fff_ffff,
                w == width,
                h == rows,
        ;
        let area: u64 = w * h;
        if (buffer.len() as u64) < area {
            return Err(RenderError::RasterizationFailure);
        }
        let mut coverage = buffer;
        coverage.truncate(area as usize);
        Ok(GlyphRecord { character, width: width as usize, height: rows as usize, coverage })
    }

    /// The character this record was made for.
    pub fn character(&self) -> (r: char)
        ensures
            r == self@.character,
    {
        self.character
    }

    /// Number of pixels in a row; at least 1.
    pub fn width(&self) -> (r: usize)
        ensures
            r == self@.width,
            r > 0,
    {
        proof {
            use_type_invariant(self);
        }
        self.width
    }

    /// Number of rows; at least 1.
    pub fn height(&self) -> (r: usize)
        ensures
            r == self@.height,
            r > 0,
    {
        proof {
            use_type_invariant(self);
        }
        self.height
    }

    /// The coverage bytes, row after row.
    pub fn coverage(&self) -> (r: &Vec<u8>)
        ensures
            r@ == self@.coverage,
            r@.len() == self@.width * self@.height,
    {
        proof {
            use_type_invariant(self);
        }
        &self.coverage
    }
}

} // verus!
