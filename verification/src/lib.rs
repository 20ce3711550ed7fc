//! Renders text as an animated, indexed-colour image: one frame per character.
//!
//! A [`script::Script`] holds one glyph record per character together with the
//! canvas that fits them all. Each glyph is centred on that canvas, its
//! coverage bytes double as indices into a two-colour ramp, and the frames are
//! handed to a GIF encoder in text order.

pub mod animation;
pub mod color;
pub mod compositor;
pub mod error;
pub mod font;
pub mod glyph;
pub mod palette;
pub mod script;
