//! The colour ramp that maps glyph coverage to colour.
//!
//! The ramp has 256 entries. Entry `i` is the colour of a pixel whose coverage
//! is `i`: the background at 0, the foreground at 255, and a channel-wise
//! blend of the two in between.

use vstd::prelude::*;

verus! {

/// Number of entries in the ramp.
pub const PALETTE_ENTRIES: usize = 256;

/// Number of bytes in the ramp: three channels per entry.
pub const PALETTE_BYTES: usize = 768;

/// One colour channel of the ramp at position `i`: the blend of `fg` and `bg`
/// with weights `i` and `255 - i`, each term divided separately and truncated.
pub open spec fn spec_blend(fg: u8, bg: u8, i: int) -> int {
    fg as int * i / 255 + bg as int * (255 - i) / 255
}

/// Entry `i` of the ramp from `bg` to `fg`.
pub open spec fn spec_entry(fg: (u8, u8, u8), bg: (u8, u8, u8), i: int) -> (u8, u8, u8) {
    (
        spec_blend(fg.0, bg.0, i) as u8,
        spec_blend(fg.1, bg.1, i) as u8,
        spec_blend(fg.2, bg.2, i) as u8,
    )
}

/// Channel `c` (0 red, 1 green, anything else blue) of a colour.
pub open spec fn channel(colour: (u8, u8, u8), c: int) -> u8 {
    if c == 0 {
        colour.0
    } else if c == 1 {
        colour.1
    } else {
        colour.2
    }
}

/// The whole ramp as the encoder takes it: `r, g, b` of entry 0, then of
/// entry 1, and so on.
pub open spec fn spec_palette(fg: (u8, u8, u8), bg: (u8, u8, u8)) -> Seq<u8> {
    Seq::new(768, |k: int| channel(spec_entry(fg, bg, k / 3), k % 3))
}

/// A blend of two channel values never leaves the channel range.
pub proof fn lemma_blend_in_range(fg: u8, bg: u8, i: int)
    requires
        0 <= i <= 255,
    ensures
        0 <= spec_blend(fg, bg, i) <= 255,
{
    let f = fg as int;
    let b = bg as int;
    assert(0 <= f * i <= 255 * i) by (nonlinear_arith)
        requires 0 <= f <= 255, 0 <= i;
    assert(0 <= b * (255 - i) <= 255 * (255 - i)) by (nonlinear_arith)
        requires 0 <= b <= 255, 0 <= 255 - i;
}

/// Blends one channel of the foreground and background colours.
pub fn blend(fg: u8, bg: u8, i: u8) -> (r: u8)
    ensures
        r as int == spec_blend(fg, bg, i as int),
{
    let f: u32 = fg as u32;
    let b: u32 = bg as u32;
    let k: u32 = i as u32;
    proof {
        lemma_blend_in_range(fg, bg, i as int);
        assert(0 <= f * k <= 255 * 255) by (nonlinear_arith)
            requires 0 <= f <= 255, 0 <= k <= 255;
        assert(0 <= b * (255 - k) <= 255 * 255) by (nonlinear_arith)
            requires 0 <= b <= 255, 0 <= k <= 255;
    }
    let v: u32 = f * k / 255 + b * (255 - k) / 255;
    v as u8
}

/// Builds the 256-entry ramp from the background colour (entry 0) to the
/// foreground colour (entry 255), as 768 bytes.
pub fn build_palette(fg: (u8, u8, u8), bg: (u8, u8, u8)) -> (r: Vec<u8>)
    ensures
        r@ == spec_palette(fg, bg),
{
    let mut map: Vec<u8> = Vec::with_capacity(PALETTE_BYTES);
    let mut i: usize = 0;
    while i < PALETTE_ENTRIES
        invariant
            i <= 256,
            map@.len() == 3 * i,
            forall|k: int| 0 <= k < 3 * i ==> map@[k] == #[trigger] spec_palette(fg, bg)[k],
        decreases 256 - i,
    {
        let level: u8 = i as u8;
        map.push(blend(fg.0, bg.0, level));
        map.push(blend(fg.1, bg.1, level));
        map.push(blend(fg.2, bg.2, level));
        proof {
            let base = 3 * i as int;
            assert(base / 3 == i && base % 3 == 0);
            assert((base + 1) / 3 == i && (base + 1) % 3 == 1);
            assert((base + 2) / 3 == i && (base + 2) % 3 == 2);
        }
        i += 1;
    }
    assert(map@ =~= spec_palette(fg, bg));
    map
}

/// The ends of the ramp are exact: entry 0 is the background colour and
/// entry 255 the foreground colour, for every pair of colours.
pub proof fn lemma_palette_endpoints(fg: (u8, u8, u8), bg: (u8, u8, u8))
    ensures
        spec_entry(fg, bg, 0) == bg,
        spec_entry(fg, bg, 255) == fg,
        spec_palette(fg, bg)[0] == bg.0,
        spec_palette(fg, bg)[1] == bg.1,
        spec_palette(fg, bg)[2] == bg.2,
        spec_palette(fg, bg)[765] == fg.0,
        spec_palette(fg, bg)[766] == fg.1,
        spec_palette(fg, bg)[767] == fg.2,
{
}

/// Every entry of the ramp is read off the flat byte sequence at three times
/// its index.
pub proof fn lemma_palette_entry(fg: (u8, u8, u8), bg: (u8, u8, u8), i: int)
    requires
        0 <= i <= 255,
    ensures
        spec_palette(fg, bg).len() == 768,
        spec_palette(fg, bg)[3 * i] == spec_entry(fg, bg, i).0,
        spec_palette(fg, bg)[3 * i + 1] == spec_entry(fg, bg, i).1,
        spec_palette(fg, bg)[3 * i + 2] == spec_entry(fg, bg, i).2,
{
}

/// Blending a channel value with itself gives that value back, or one less
/// where the two truncated terms each lose a fraction; it is exact whenever
/// `value * i` is a multiple of 255, so at both ends of the ramp and for the
/// values 0 and 255 everywhere.
pub proof fn lemma_blend_same_value(value: u8, i: int)
    requires
        0 <= i <= 255,
    ensures
        value - 1 <= spec_blend(value, value, i) <= value,
        (value as int * i) % 255 == 0 ==> spec_blend(value, value, i) == value,
        value == 0 || value == 255 ==> spec_blend(value, value, i) == value,
{
    let v = value as int;
    let a = v * i;
    let b = v * (255 - i);
    assert(a + b == 255 * v) by (nonlinear_arith)
        requires a == v * i, b == v * (255 - i);
    assert(0 <= a && 0 <= b) by (nonlinear_arith)
        requires a == v * i, b == v * (255 - i), 0 <= v, 0 <= i <= 255;
    if value == 255 {
        assert(a == 255 * i && b == 255 * (255 - i));
    }
}

/// A ramp between two equal colours whose channels are all 0 or 255 holds
/// that one colour in every entry.
pub proof fn lemma_palette_of_one_colour(colour: (u8, u8, u8), i: int)
    requires
        0 <= i <= 255,
        colour.0 == 0 || colour.0 == 255,
        colour.1 == 0 || colour.1 == 255,
        colour.2 == 0 || colour.2 == 255,
    ensures
        spec_entry(colour, colour, i) == colour,
{
    lemma_blend_same_value(colour.0, i);
    lemma_blend_same_value(colour.1, i);
    lemma_blend_same_value(colour.2, i);
}

} // verus!
