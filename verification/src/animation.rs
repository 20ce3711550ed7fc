//! The animation: one frame per glyph, written to a GIF encoder in text
//! order.
//!
//! Every frame covers the whole canvas, is shown for the same time, treats
//! index 0 as transparent and asks the viewer to clear the canvas to the
//! background before the next frame, so that a small glyph never shows the
//! remains of a larger one.

use vstd::prelude::*;
use crate::compositor::{centre_offset, composite, lemma_origin_is_centred, spec_composite};
use crate::error::RenderError;
use crate::glyph::{GlyphRecord, GlyphView};
use crate::palette::{build_palette, spec_palette, PALETTE_BYTES};
use crate::script::{characters, glyph_views, lemma_canvas_is_maximum, Script, ScriptView};

verus! {

/// Time for which each frame is shown, in hundredths of a second.
pub const FRAME_DELAY: u16 = 30;

/// The palette index that viewers treat as see-through: the background.
pub const TRANSPARENT_INDEX: u8 = 0;

/// The largest canvas width or height that the encoder can record.
pub const MAX_CANVAS_SIDE: usize = 65535;

/// What a viewer does with a frame before it draws the next one.
#[derive(Clone, Copy, Debug, PartialEq, Eq, Structural)]
pub enum Disposal {
    /// Nothing is asked of the viewer.
    Unspecified,
    /// The frame is left in place.
    Keep,
    /// The canvas is cleared to the background.
    RestoreToBackground,
    /// The canvas is put back as it was before the frame.
    RestoreToPrevious,
}

/// What a frame holds, as mathematical values.
pub struct FrameView {
    /// Number of pixels in a row.
    pub width: u16,
    /// Number of rows.
    pub height: u16,
    /// Column of the canvas at which the frame starts.
    pub left: u16,
    /// Row of the canvas at which the frame starts.
    pub top: u16,
    /// Time for which the frame is shown, in hundredths of a second.
    pub delay: u16,
    /// The palette index that is see-through, if any.
    pub transparent: Option<u8>,
    /// What happens to the frame before the next one is drawn.
    pub disposal: Disposal,
    /// One palette index per pixel, row after row.
    pub buffer: Seq<u8>,
}

impl FrameView {
    /// A frame holds exactly one palette index for each of its pixels.
    pub open spec fn wf(self) -> bool {
        self.buffer.len() == self.width * self.height
    }
}

/// One frame of the animation, as it is handed to the encoder.
#[derive(Debug)]
pub struct CompositedFrame {
    /// Number of pixels in a row.
    pub width: u16,
    /// Number of rows.
    pub height: u16,
    /// Column of the canvas at which the frame starts.
    pub left: u16,
    /// Row of the canvas at which the frame starts.
    pub top: u16,
    /// Time for which the frame is shown, in hundredths of a second.
    pub delay: u16,
    /// The palette index that is see-through, if any.
    pub transparent: Option<u8>,
    /// What happens to the frame before the next one is drawn.
    pub disposal: Disposal,
    /// One palette index per pixel, row after row.
    pub buffer: Vec<u8>,
}

impl View for CompositedFrame {
    type V = FrameView;

    open spec fn view(&self) -> FrameView {
        FrameView {
            width: self.width,
            height: self.height,
            left: self.left,
            top: self.top,
            delay: self.delay,
            transparent: self.transparent,
            disposal: self.disposal,
            buffer: self.buffer@,
        }
    }
}

impl CompositedFrame {
    /// Whether the buffer holds exactly one palette index for each pixel of
    /// the frame.
    pub fn is_well_formed(&self) -> (r: bool)
        ensures
            r == self@.wf(),
    {
        let width: u32 = self.width as u32;
        let height: u32 = self.height as u32;
        assert(width * height <= 0xffff * 0xffff) by (nonlinear_arith)
            requires
                width <= 0xffff,
                height <= 0xffff,
        ;
        let area: u64 = (width * height) as u64;
        self.buffer.len() as u64 == area
    }
}

/// The frame that shows glyph `g` on a canvas of the given size: the glyph
/// centred in a buffer that covers the whole canvas, placed at the canvas
/// origin, with the fixed delay, transparency and disposal.
pub open spec fn spec_frame(g: GlyphView, canvas_width: u16, canvas_height: u16) -> FrameView {
    FrameView {
        width: canvas_width,
        height: canvas_height,
        left: 0,
        top: 0,
        delay: FRAME_DELAY,
        transparent: Some(TRANSPARENT_INDEX),
        disposal: Disposal::RestoreToBackground,
        buffer: spec_composite(g, canvas_width as nat, canvas_height as nat),
    }
}

/// Whether the encoder can record the canvas of a script.
pub open spec fn fits_encoder(s: ScriptView) -> bool {
    s.canvas_width <= MAX_CANVAS_SIDE && s.canvas_height <= MAX_CANVAS_SIDE
}

/// The frames of a script: one per glyph, in the order of the glyphs, each
/// on the script's canvas.
pub open spec fn spec_frames(s: ScriptView) -> Seq<FrameView>
    recommends
        fits_encoder(s),
{
    Seq::new(
        s.glyphs.len(),
        |i: int| spec_frame(s.glyphs[i], s.canvas_width as u16, s.canvas_height as u16),
    )
}

/// Builds the frame that shows `glyph` on a canvas of the given size.
pub fn compose_frame(glyph: &GlyphRecord, canvas_width: u16, canvas_height: u16) -> (r: CompositedFrame)
    ensures
        r@ == spec_frame(glyph@, canvas_width, canvas_height),
        r@.wf(),
{
    assert(canvas_width as usize * canvas_height as usize <= usize::MAX) by (nonlinear_arith)
        requires
            canvas_width <= 0xffff,
            canvas_height <= 0xffff,
            usize::MAX >= 0xffff_ffff,
    ;
    let buffer = composite(glyph, canvas_width as usize, canvas_height as usize);
    CompositedFrame {
        width: canvas_width,
        height: canvas_height,
        left: 0,
        top: 0,
        delay: FRAME_DELAY,
        transparent: Some(TRANSPARENT_INDEX),
        disposal: Disposal::RestoreToBackground,
        buffer,
    }
}

/// The views of a sequence of frames, in the same order.
pub open spec fn frame_views(frames: Seq<CompositedFrame>) -> Seq<FrameView> {
    Seq::new(frames.len(), |i: int| frames[i]@)
}

/// An animation as the encoder is given it.
pub struct AnimationView {
    /// Width of the canvas.
    pub width: u16,
    /// Height of the canvas.
    pub height: u16,
    /// The global palette: `r, g, b` of entry 0, then of entry 1, and so on.
    pub palette: Seq<u8>,
    /// Whether the animation is marked to repeat for ever.
    pub endless: bool,
    /// The frames, in the order in which they are shown.
    pub frames: Seq<FrameView>,
}

/// The animation of a script in the given colours: the script's canvas, the
/// ramp from `bg` to `fg`, endless repetition, and the script's frames.
pub open spec fn spec_animation(s: ScriptView, fg: (u8, u8, u8), bg: (u8, u8, u8)) -> AnimationView
    recommends
        fits_encoder(s),
{
    AnimationView {
        width: s.canvas_width as u16,
        height: s.canvas_height as u16,
        palette: spec_palette(fg, bg),
        endless: true,
        frames: spec_frames(s),
    }
}

/// `std::io::Error`: the error type of the encoder's calls. Opaque to the
/// verifier.
#[verifier::external_type_specification]
#[verifier::external_body]
pub struct ExIoError(std::io::Error);

/// `gif::Frame`: a frame as the encoder takes it. Opaque to the verifier.
#[verifier::external_type_specification]
#[verifier::external_body]
pub struct ExEncoderFrame<'a>(gif::Frame<'a>);

/// What an encoder frame holds, where it is a frame of the kind this library
/// makes: one without a palette of its own, not interlaced, and not waiting
/// for the user. Of any other encoder frame, `None`.
pub uninterp spec fn frame_held(frame: gif::Frame<'_>) -> Option<FrameView>;

/// The bytes of the GIF file that the encoder writes for an animation with a
/// palette of 256 colours: the screen size and the global palette, the
/// looping mark, the frames in their order, and the trailer.
pub uninterp spec fn gif_stream(animation: AnimationView) -> Seq<u8>;

/// Makes a `gif::Frame` with `gif::Frame::default` and gives it the fields of
/// `frame`, one for one; the buffer is borrowed. The result has no palette,
/// is not interlaced and waits for no input, as the default has it.
#[verifier::external_body]
fn encoder_frame<'a>(frame: &'a CompositedFrame) -> (r: gif::Frame<'a>)
    ensures
        frame_held(r) == Some(frame@),
{
    let dispose = match frame.disposal {
        Disposal::Unspecified => gif::DisposalMethod::Any,
        Disposal::Keep => gif::DisposalMethod::Keep,
        Disposal::RestoreToBackground => gif::DisposalMethod::Background,
        Disposal::RestoreToPrevious => gif::DisposalMethod::Previous,
    };
    let mut f = gif::Frame::default();
    (f.left, f.top, f.width, f.height) = (frame.left, frame.top, frame.width, frame.height);
    (f.delay, f.transparent, f.dispose) = (frame.delay, frame.transparent, dispose);
    f.buffer = std::borrow::Cow::Borrowed(frame.buffer.as_slice());
    f
}

/// Runs the encoder on a byte vector of its own: `gif::Encoder::new` with the
/// canvas and the palette, `gif::SetParameter::set` with
/// `gif::Repeat::Infinite`, `gif::Encoder::write_frame` for each frame in the
/// order of the vector, and the drop of the encoder, which writes the
/// trailer. The vector is handed back.
///
/// The encoder has two errors of its own: a palette of more than 256
/// colours, and a frame without a palette in a stream without a global one;
/// neither can arise here. Any other error is one of the writer, and
/// appending to a vector has none. So the call succeeds. What it writes
/// depends on nothing but what it was given, and that is what [`gif_stream`]
/// names. Only frames of this library's kind, each with one index per pixel,
/// are handed in.
#[verifier::external_body]
fn encode_stream(width: u16, height: u16, palette: &Vec<u8>, frames: &Vec<gif::Frame<'_>>) -> (r:
    Result<Vec<u8>, std::io::Error>)
    requires
        palette@.len() == 768,
        forall|i: int|
            0 <= i < frames@.len() ==> (#[trigger] frame_held(frames@[i])) is Some && frame_held(
                frames@[i],
            )->0.wf(),
    ensures
        r is Ok,
        r->Ok_0@ == gif_stream(
            AnimationView {
                width,
                height,
                palette: palette@,
                endless: true,
                frames: Seq::new(frames@.len(), |i: int| frame_held(frames@[i])->0),
            },
        ),
{
    let mut out = Vec::new();
    let mut encoder = gif::Encoder::new(&mut out, width, height, palette.as_slice())?;
    gif::SetParameter::set(&mut encoder, gif::Repeat::Infinite)?;
    for frame in frames.iter() {
        encoder.write_frame(frame)?;
    }
    std::mem::drop(encoder);
    Ok(out)
}

/// Whether every frame holds exactly one palette index for each of its
/// pixels.
pub open spec fn all_wf(frames: Seq<FrameView>) -> bool {
    forall|i: int| 0 <= i < frames.len() ==> (#[trigger] frames[i]).wf()
}

/// Encodes an animation as a GIF file and returns its bytes: a canvas of the
/// given size, the given global palette, endless repetition, and the given
/// frames in their order.
///
/// The palette must be a whole ramp of 768 bytes, and every frame must hold
/// one index per pixel; any other animation is refused.
pub fn encode_animation(
    width: u16,
    height: u16,
    palette: &Vec<u8>,
    frames: &Vec<CompositedFrame>,
) -> (r: Result<Vec<u8>, RenderError>)
    ensures
        r is Ok <==> palette@.len() == PALETTE_BYTES && all_wf(frame_views(frames@)),
        match r {
            Ok(bytes) => bytes@ == gif_stream(
                AnimationView {
                    width,
                    height,
                    palette: palette@,
                    endless: true,
                    frames: frame_views(frames@),
                },
            ),
            Err(e) => e == RenderError::EncodingFailure,
        },
{
    if palette.len() != PALETTE_BYTES {
        return Err(RenderError::EncodingFailure);
    }
    let mut given: Vec<gif::Frame<'_>> = Vec::new();
    let mut i: usize = 0;
    while i < frames.len()
        invariant
            i <= frames.len(),
            given@.len() == i,
            forall|k: int| 0 <= k < i ==> (#[trigger] frame_views(frames@)[k]).wf(),
            forall|k: int| 0 <= k < i ==> (#[trigger] frame_held(given@[k])) == Some(frames@[k]@),
            forall|k: int| 0 <= k < i ==> (#[trigger] frames@[k])@.wf(),
        decreases frames.len() - i,
    {
        let frame = &frames[i];
        if !frame.is_well_formed() {
            assert(!frame_views(frames@)[i as int].wf());
            return Err(RenderError::EncodingFailure);
        }
        given.push(encoder_frame(frame));
        i += 1;
    }
    assert(Seq::new(given@.len(), |k: int| frame_held(given@[k])->0) =~= frame_views(frames@));
    match encode_stream(width, height, palette, &given) {
        Ok(bytes) => Ok(bytes),
        Err(_) => Err(RenderError::EncodingFailure),
    }
}

impl Script {
    /// Composites the frames of this script: one frame per glyph, in the
    /// order of the glyphs, each covering the whole canvas.
    ///
    /// The call succeeds exactly if no side of the canvas is above 65535; a
    /// larger canvas does not fit the 16 bits that a frame has for each side.
    pub fn frames(&self) -> (r: Result<Vec<CompositedFrame>, RenderError>)
        ensures
            r is Ok <==> fits_encoder(self@),
            match r {
                Ok(frames) => frame_views(frames@) == spec_frames(self@) && all_wf(
                    frame_views(frames@),
                ),
                Err(e) => e == RenderError::EncodingFailure,
            },
    {
        let width = self.canvas_width();
        let height = self.canvas_height();
        if width > MAX_CANVAS_SIDE || height > MAX_CANVAS_SIDE {
            return Err(RenderError::EncodingFailure);
        }
        let canvas_width: u16 = width as u16;
        let canvas_height: u16 = height as u16;
        let glyphs = self.glyphs();
        let mut frames: Vec<CompositedFrame> = Vec::new();
        let mut i: usize = 0;
        while i < glyphs.len()
            invariant
                i <= glyphs.len(),
                glyph_views(glyphs@) == self@.glyphs,
                fits_encoder(self@),
                canvas_width == self@.canvas_width,
                canvas_height == self@.canvas_height,
                frames@.len() == i,
                forall|k: int|
                    0 <= k < i ==> (#[trigger] frames@[k])@ == spec_frame(
                        self@.glyphs[k],
                        canvas_width,
                        canvas_height,
                    ) && frames@[k]@.wf(),
            decreases glyphs.len() - i,
        {
            let frame = compose_frame(&glyphs[i], canvas_width, canvas_height);
            assert(glyph_views(glyphs@)[i as int] == glyphs@[i as int]@);
            frames.push(frame);
            i += 1;
        }
        assert(frame_views(frames@) =~= spec_frames(self@));
        Ok(frames)
    }

    /// Renders this script as an animated GIF and returns the bytes of the
    /// file: the canvas is that of the script, the palette is the ramp from
    /// `bg_col` to `fg_col`, the animation loops for ever, and the frames are
    /// those of the glyphs, in order.
    ///
    /// The call succeeds exactly if no side of the canvas is above 65535; no
    /// bytes are handed out otherwise.
    pub fn render_gif(&self, fg_col: (u8, u8, u8), bg_col: (u8, u8, u8)) -> (r: Result<
        Vec<u8>,
        RenderError,
    >)
        ensures
            r is Ok <==> fits_encoder(self@),
            match r {
                Ok(bytes) => bytes@ == gif_stream(spec_animation(self@, fg_col, bg_col)),
                Err(e) => e == RenderError::EncodingFailure,
            },
    {
        let frames = match self.frames() {
            Ok(frames) => frames,
            Err(e) => {
                return Err(e);
            },
        };
        let palette = build_palette(fg_col, bg_col);
        let width = self.canvas_width();
        let height = self.canvas_height();
        encode_animation(width as u16, height as u16, &palette, &frames)
    }
}

/// One frame per character, in text order: the frames of the script of a
/// text are as many as the characters of the text, and frame `i` shows the
/// glyph of character `i`.
pub proof fn lemma_one_frame_per_character(s: ScriptView, text: Seq<char>)
    requires
        s.wf(),
        fits_encoder(s),
        characters(s.glyphs) == text,
    ensures
        spec_frames(s).len() == text.len(),
        spec_frames(s).len() == s.glyphs.len(),
        forall|i: int|
            0 <= i < text.len() ==> s.glyphs[i].character == text[i] && #[trigger] spec_frames(
                s,
            )[i] == spec_frame(s.glyphs[i], s.canvas_width as u16, s.canvas_height as u16),
{
    assert forall|i: int| 0 <= i < text.len() implies s.glyphs[i].character == text[i] by {
        assert(characters(s.glyphs)[i] == s.glyphs[i].character);
    }
}

/// Every frame has the size of the canvas, and its buffer holds exactly one
/// index per canvas pixel.
pub proof fn lemma_frames_fill_canvas(s: ScriptView, i: int)
    requires
        s.wf(),
        fits_encoder(s),
        0 <= i < s.glyphs.len(),
    ensures
        spec_frames(s)[i].width == s.canvas_width,
        spec_frames(s)[i].height == s.canvas_height,
        spec_frames(s)[i].left == 0,
        spec_frames(s)[i].top == 0,
        spec_frames(s)[i].buffer.len() == s.canvas_width * s.canvas_height,
        spec_frames(s)[i].wf(),
{
}

/// Every glyph of a script is centred in its frame: the glyph fits the
/// canvas, and its first pixel stands at column `(W - w) / 2` of row
/// `(H - h) / 2` of the frame buffer, both rounded down.
pub proof fn lemma_frames_are_centred(s: ScriptView, i: int)
    requires
        s.wf(),
        fits_encoder(s),
        0 <= i < s.glyphs.len(),
    ensures
        s.glyphs[i].width <= s.canvas_width,
        s.glyphs[i].height <= s.canvas_height,
        ({
            let g = s.glyphs[i];
            let x = centre_offset(s.canvas_width as int, g.width as int);
            let y = centre_offset(s.canvas_height as int, g.height as int);
            &&& 0 <= x < s.canvas_width
            &&& 0 <= y < s.canvas_height
            &&& 0 <= y * s.canvas_width + x < spec_frames(s)[i].buffer.len()
            &&& spec_frames(s)[i].buffer[y * s.canvas_width + x] == g.coverage[0]
        }),
{
    lemma_canvas_is_maximum(s.glyphs);
    lemma_origin_is_centred(s.glyphs[i], s.canvas_width, s.canvas_height);
}

/// The animation depends on the glyphs and the colours alone: two scripts
/// with the same glyphs have the same canvas and the same frames, byte for
/// byte, and with the same colours the same palette.
pub proof fn lemma_animation_is_determined(
    a: ScriptView,
    b: ScriptView,
    fg: (u8, u8, u8),
    bg: (u8, u8, u8),
)
    requires
        a.wf(),
        b.wf(),
        a.glyphs == b.glyphs,
    ensures
        a.canvas_width == b.canvas_width,
        a.canvas_height == b.canvas_height,
        spec_frames(a) == spec_frames(b),
        spec_animation(a, fg, bg) == spec_animation(b, fg, bg),
{
}

} // verus!
