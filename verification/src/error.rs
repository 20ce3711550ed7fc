//! The failures that end a run.

use vstd::prelude::*;
use crate::color::ColorParseError;

verus! {

/// Why a run was aborted. Every kind is final: nothing is retried.
#[derive(Clone, Copy, Debug, PartialEq, Eq, Structural)]
pub enum RenderError {
    /// The font engine could not produce a usable bitmap for a character.
    RasterizationFailure,
    /// A colour argument was malformed.
    ColorParseError(ColorParseError),
    /// The font could not be opened.
    FontLoadFailure,
    /// The animation cannot be encoded or written: a canvas side is above
    /// 65535, the palette is not a whole ramp, or a frame does not fill its
    /// size.
    EncodingFailure,
}

impl RenderError {
    /// The diagnostic text of this error.
    pub open spec fn spec_message(self) -> Seq<char> {
        match self {
            RenderError::RasterizationFailure => "Cannot render glyph"@,
            RenderError::ColorParseError(e) => e.spec_message(),
            RenderError::FontLoadFailure => "Cannot load font"@,
            RenderError::EncodingFailure => "Unable to write frame"@,
        }
    }

    /// Returns the diagnostic text of this error.
    pub fn message(&self) -> (r: String)
        ensures
            r@ == self.spec_message(),
    {
        match self {
            RenderError::RasterizationFailure => "Cannot render glyph".to_owned(),
            RenderError::ColorParseError(e) => e.message(),
            RenderError::FontLoadFailure => "Cannot load font".to_owned(),
            RenderError::EncodingFailure => "Unable to write frame".to_owned(),
        }
    }
}

} // verus!
