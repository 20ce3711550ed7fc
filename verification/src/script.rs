//! The script: one glyph record per character of a text, in text order, and
//! the canvas that fits them all.

use vstd::prelude::*;
use crate::error::RenderError;
use crate::font::rasterize;
use crate::glyph::{GlyphRecord, GlyphView};

verus! {

/// The larger of two sizes.
pub open spec fn larger(a: nat, b: nat) -> nat {
    if a >= b {
        a
    } else {
        b
    }
}

/// The greatest width among the glyphs, 0 where there are none: a fold of
/// `larger` over the widths, starting at 0.
pub open spec fn max_width(glyphs: Seq<GlyphView>) -> nat
    decreases glyphs.len(),
{
    if glyphs.len() == 0 {
        0
    } else {
        larger(max_width(glyphs.drop_last()), glyphs.last().width)
    }
}

/// The greatest height among the glyphs, 0 where there are none.
pub open spec fn max_height(glyphs: Seq<GlyphView>) -> nat
    decreases glyphs.len(),
{
    if glyphs.len() == 0 {
        0
    } else {
        larger(max_height(glyphs.drop_last()), glyphs.last().height)
    }
}

/// The views of a sequence of glyph records, in the same order.
pub open spec fn glyph_views(glyphs: Seq<GlyphRecord>) -> Seq<GlyphView> {
    Seq::new(glyphs.len(), |i: int| glyphs[i]@)
}

/// The characters of a sequence of glyphs, in the same order.
pub open spec fn characters(glyphs: Seq<GlyphView>) -> Seq<char> {
    Seq::new(glyphs.len(), |i: int| glyphs[i].character)
}

/// What a script holds, as mathematical values.
pub struct ScriptView {
    /// The glyphs, in the order in which they are shown.
    pub glyphs: Seq<GlyphView>,
    /// Width of every frame.
    pub canvas_width: nat,
    /// Height of every frame.
    pub canvas_height: nat,
}

impl ScriptView {
    /// Every glyph is well formed, and the canvas is exactly as wide as the
    /// widest glyph and as high as the highest.
    pub open spec fn wf(self) -> bool {
        &&& forall|i: int| 0 <= i < self.glyphs.len() ==> (#[trigger] self.glyphs[i]).wf()
        &&& self.canvas_width == max_width(self.glyphs)
        &&& self.canvas_height == max_height(self.glyphs)
    }

    /// The script of the given glyphs.
    pub open spec fn of(glyphs: Seq<GlyphView>) -> ScriptView {
        ScriptView {
            glyphs,
            canvas_width: max_width(glyphs),
            canvas_height: max_height(glyphs),
        }
    }
}

/// The canvas width is a maximum: no glyph is wider, and unless there is no
/// glyph at all, some glyph is exactly that wide. The same holds of the
/// height.
pub proof fn lemma_canvas_is_maximum(glyphs: Seq<GlyphView>)
    ensures
        forall|i: int| 0 <= i < glyphs.len() ==> (#[trigger] glyphs[i]).width <= max_width(glyphs),
        forall|i: int| 0 <= i < glyphs.len() ==> (#[trigger] glyphs[i]).height <= max_height(glyphs),
        glyphs.len() == 0 ==> max_width(glyphs) == 0 && max_height(glyphs) == 0,
        glyphs.len() > 0 ==> exists|i: int|
            0 <= i < glyphs.len() && (#[trigger] glyphs[i]).width == max_width(glyphs),
        glyphs.len() > 0 ==> exists|i: int|
            0 <= i < glyphs.len() && (#[trigger] glyphs[i]).height == max_height(glyphs),
    decreases glyphs.len(),
{
    if glyphs.len() > 0 {
        let front = glyphs.drop_last();
        let n = glyphs.len() - 1;
        lemma_canvas_is_maximum(front);
        assert forall|i: int| 0 <= i < glyphs.len() implies (#[trigger] glyphs[i]).width
            <= max_width(glyphs) && glyphs[i].height <= max_height(glyphs) by {
            if i < n {
                assert(front[i] == glyphs[i]);
            }
        }
        if max_width(glyphs) == glyphs.last().width {
            assert(glyphs[n].width == max_width(glyphs));
        } else {
            let i = choose|i: int| 0 <= i < front.len() && (#[trigger] front[i]).width == max_width(front);
            assert(glyphs[i] == front[i]);
            assert(glyphs[i].width == max_width(glyphs));
        }
        if max_height(glyphs) == glyphs.last().height {
            assert(glyphs[n].height == max_height(glyphs));
        } else {
            let i = choose|i: int|
                0 <= i < front.len() && (#[trigger] front[i]).height == max_height(front);
            assert(glyphs[i] == front[i]);
            assert(glyphs[i].height == max_height(glyphs));
        }
    }
}

/// The glyphs of a text and the canvas on which each of them is shown.
#[derive(Debug)]
pub struct Script {
    glyphs: Vec<GlyphRecord>,
    canvas_width: usize,
    canvas_height: usize,
}

impl View for Script {
    type V = ScriptView;

    closed spec fn view(&self) -> ScriptView {
        ScriptView {
            glyphs: glyph_views(self.glyphs@),
            canvas_width: self.canvas_width as nat,
            canvas_height: self.canvas_height as nat,
        }
    }
}

impl Script {
    /// Every script in use is well formed.
    #[verifier::type_invariant]
    pub open spec fn inv(self) -> bool {
        self@.wf()
    }

    /// Builds the script of the given glyph records, keeping their order. The
    /// canvas is as wide as the widest record and as high as the highest; with
    /// no record it is 0 by 0.
    pub fn from_glyphs(glyphs: Vec<GlyphRecord>) -> (r: Script)
        ensures
            r@ == ScriptView::of(glyph_views(glyphs@)),
            r@.wf(),
    {
        let mut max_w: usize = 0;
        let mut max_h: usize = 0;
        let mut i: usize = 0;
        let ghost views = glyph_views(glyphs@);
        while i < glyphs.len()
            invariant
                i <= glyphs.len(),
                views == glyph_views(glyphs@),
                max_w == max_width(views.take(i as int)),
                max_h == max_height(views.take(i as int)),
                forall|k: int| 0 <= k < i ==> (#[trigger] views[k]).wf(),
            decreases glyphs.len() - i,
        {
            let g = &glyphs[i];
            proof {
                use_type_invariant(g);
                assert(views.take(i + 1).drop_last() =~= views.take(i as int));
                assert(views.take(i + 1).last() == g@);
            }
            let w = g.width();
            let h = g.height();
            if w > max_w {
                max_w = w;
            }
            if h > max_h {
                max_h = h;
            }
            i += 1;
        }
        assert(views.take(i as int) =~= views);
        Script { glyphs, canvas_width: max_w, canvas_height: max_h }
    }

    /// Rasterizes every character of `text` with `face`, in order, and builds
    /// the script of the glyphs.
    ///
    /// No character is skipped: the script has one glyph per character, or the
    /// call fails as a whole. The empty text asks nothing of the face and
    /// always gives the empty script, whose canvas is 0 by 0.
    pub fn from(text: &str, face: &freetype::face::Face) -> (r: Result<Script, RenderError>)
        ensures
            match r {
                Ok(s) => s@.wf() && characters(s@.glyphs) == text@,
                Err(e) => e == RenderError::RasterizationFailure,
            },
            text@.len() == 0 ==> r is Ok && r->Ok_0@ == (ScriptView {
                glyphs: Seq::<GlyphView>::empty(),
                canvas_width: 0,
                canvas_height: 0,
            }),
    {
        let mut glyphs: Vec<GlyphRecord> = Vec::new();
        for c in it: text.chars()
            invariant
                it.seq() == text@,
                glyphs@.len() == it.index(),
                forall|k: int| 0 <= k < glyphs@.len() ==> (#[trigger] glyphs@[k])@.character == text@[k],
        {
            match rasterize(face, c) {
                Ok(g) => {
                    glyphs.push(g);
                },
                Err(e) => {
                    return Err(e);
                },
            }
        }
        let script = Script::from_glyphs(glyphs);
        assert(characters(script@.glyphs) =~= text@);
        assert(text@.len() == 0 ==> script@.glyphs =~= Seq::<GlyphView>::empty());
        Ok(script)
    }

    /// Number of glyphs, which is the number of frames.
    pub fn len(&self) -> (r: usize)
        ensures
            r == self@.glyphs.len(),
    {
        self.glyphs.len()
    }

    /// Whether the script has no glyph.
    pub fn is_empty(&self) -> (r: bool)
        ensures
            r == (self@.glyphs.len() == 0),
    {
        self.glyphs.len() == 0
    }

    /// The glyph records, in the order in which they are shown.
    pub fn glyphs(&self) -> (r: &Vec<GlyphRecord>)
        ensures
            glyph_views(r@) == self@.glyphs,
    {
        &self.glyphs
    }

    /// Width of the canvas: that of the widest glyph.
    pub fn canvas_width(&self) -> (r: usize)
        ensures
            r == self@.canvas_width,
            r == max_width(self@.glyphs),
    {
        proof {
            use_type_invariant(self);
        }
        self.canvas_width
    }

    /// Height of the canvas: that of the highest glyph.
    pub fn canvas_height(&self) -> (r: usize)
        ensures
            r == self@.canvas_height,
            r == max_height(self@.glyphs),
    {
        proof {
            use_type_invariant(self);
        }
        self.canvas_height
    }
}

} // verus!
