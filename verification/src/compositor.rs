//! Placing a glyph on the canvas.
//!
//! A glyph is centred on both axes. Its coverage bytes are copied as they are:
//! a coverage value is the index of its colour in the ramp, and index 0, the
//! background, fills whatever the glyph does not cover.

use vstd::prelude::*;
use vstd::arithmetic::div_mod::{lemma_fundamental_div_mod, lemma_fundamental_div_mod_converse};
use crate::glyph::{GlyphRecord, GlyphView};

verus! {

/// The distance from the start of an axis of length `canvas` to the start of
/// a span of length `size` centred on it, rounded down. It is negative where
/// the span is longer than the axis.
pub open spec fn centre_offset(canvas: int, size: int) -> int {
    (canvas - size) / 2
}

/// Where position `p` of a centred span of length `size` lands on an axis of
/// length `canvas`, if it lands on the axis at all.
pub open spec fn spec_dest_coord(canvas: int, size: int, p: int) -> Option<int> {
    let d = centre_offset(canvas, size) + p;
    if 0 <= d < canvas {
        Some(d)
    } else {
        None
    }
}

/// The index in a row-major canvas buffer of the pixel on which pixel
/// `(gx, gy)` of a centred glyph lands, if it lands on the canvas.
pub open spec fn spec_dest_index(
    glyph_width: int,
    glyph_height: int,
    canvas_width: int,
    canvas_height: int,
    gx: int,
    gy: int,
) -> Option<int> {
    match (
        spec_dest_coord(canvas_width, glyph_width, gx),
        spec_dest_coord(canvas_height, glyph_height, gy),
    ) {
        (Some(x), Some(y)) => Some(y * canvas_width + x),
        _ => None,
    }
}

/// The index in a glyph's coverage of the pixel that lands on index `k` of
/// the canvas buffer, if the glyph covers that pixel.
pub open spec fn spec_source_index(
    glyph_width: int,
    glyph_height: int,
    canvas_width: int,
    canvas_height: int,
    k: int,
) -> Option<int> {
    let gx = k % canvas_width - centre_offset(canvas_width, glyph_width);
    let gy = k / canvas_width - centre_offset(canvas_height, glyph_height);
    if 0 <= gx < glyph_width && 0 <= gy < glyph_height {
        Some(gy * glyph_width + gx)
    } else {
        None
    }
}

/// The frame buffer of a glyph centred on a canvas: under the glyph its
/// coverage, elsewhere 0.
pub open spec fn spec_composite(g: GlyphView, canvas_width: nat, canvas_height: nat) -> Seq<u8> {
    Seq::new(
        canvas_width * canvas_height,
        |k: int|
            match spec_source_index(
                g.width as int,
                g.height as int,
                canvas_width as int,
                canvas_height as int,
                k,
            ) {
                Some(j) => g.coverage[j],
                None => 0u8,
            },
    )
}

/// The frame buffer while only the first `done` coverage bytes have been
/// copied.
pub open spec fn spec_partial(g: GlyphView, canvas_width: nat, canvas_height: nat, done: int) -> Seq<
    u8,
> {
    Seq::new(
        canvas_width * canvas_height,
        |k: int|
            match spec_source_index(
                g.width as int,
                g.height as int,
                canvas_width as int,
                canvas_height as int,
                k,
            ) {
                Some(j) => if j < done {
                    g.coverage[j]
                } else {
                    0u8
                },
                None => 0u8,
            },
    )
}

/// A pixel of the glyph and the canvas index it lands on determine each
/// other: the destination of `(gx, gy)` is `k` exactly if the source of `k`
/// is `(gx, gy)`.
pub proof fn lemma_dest_source_inverse(
    glyph_width: int,
    glyph_height: int,
    canvas_width: int,
    canvas_height: int,
    gx: int,
    gy: int,
    k: int,
)
    requires
        0 <= gx < glyph_width,
        0 <= gy < glyph_height,
        0 <= canvas_width,
        0 <= canvas_height,
    ensures
        spec_dest_index(glyph_width, glyph_height, canvas_width, canvas_height, gx, gy) == Some(k)
            <==> 0 <= k < canvas_width * canvas_height && spec_source_index(
            glyph_width,
            glyph_height,
            canvas_width,
            canvas_height,
            k,
        ) == Some(gy * glyph_width + gx),
{
    let off_x = centre_offset(canvas_width, glyph_width);
    let off_y = centre_offset(canvas_height, glyph_height);
    if spec_dest_index(glyph_width, glyph_height, canvas_width, canvas_height, gx, gy) == Some(k) {
        let x = off_x + gx;
        let y = off_y + gy;
        assert(0 <= x < canvas_width && 0 <= y < canvas_height);
        assert(k == y * canvas_width + x);
        lemma_fundamental_div_mod_converse(k, canvas_width, y, x);
        assert(0 <= k < canvas_width * canvas_height) by (nonlinear_arith)
            requires
                k == y * canvas_width + x,
                0 <= x < canvas_width,
                0 <= y < canvas_height,
        ;
    }
    if 0 <= k < canvas_width * canvas_height && spec_source_index(
        glyph_width,
        glyph_height,
        canvas_width,
        canvas_height,
        k,
    ) == Some(gy * glyph_width + gx) {
        assert(canvas_width > 0) by (nonlinear_arith)
            requires
                0 <= k < canvas_width * canvas_height,
                0 <= canvas_width,
        ;
        let x = k % canvas_width;
        let y = k / canvas_width;
        let sx = x - off_x;
        let sy = y - off_y;
        assert(0 <= sx < glyph_width && 0 <= sy < glyph_height);
        assert(sy * glyph_width + sx == gy * glyph_width + gx);
        lemma_fundamental_div_mod_converse(sy * glyph_width + sx, glyph_width, sy, sx);
        lemma_fundamental_div_mod_converse(gy * glyph_width + gx, glyph_width, gy, gx);
        assert(sx == gx && sy == gy);
        lemma_fundamental_div_mod(k, canvas_width);
        assert(k == y * canvas_width + x) by (nonlinear_arith)
            requires
                k == canvas_width * y + x,
        ;
        assert(0 <= x < canvas_width);
        assert(0 <= y < canvas_height) by (nonlinear_arith)
            requires
                k == y * canvas_width + x,
                0 <= x < canvas_width,
                0 <= k < canvas_width * canvas_height,
                0 <= canvas_height,
        ;
    }
}

/// A source index always lies inside the glyph's coverage.
pub proof fn lemma_source_in_coverage(
    glyph_width: int,
    glyph_height: int,
    canvas_width: int,
    canvas_height: int,
    k: int,
)
    ensures
        match spec_source_index(glyph_width, glyph_height, canvas_width, canvas_height, k) {
            Some(j) => 0 <= j < glyph_width * glyph_height,
            None => true,
        },
{
    let gx = k % canvas_width - centre_offset(canvas_width, glyph_width);
    let gy = k / canvas_width - centre_offset(canvas_height, glyph_height);
    if 0 <= gx < glyph_width && 0 <= gy < glyph_height {
        assert(0 <= gy * glyph_width + gx < glyph_width * glyph_height) by (nonlinear_arith)
            requires
                0 <= gx < glyph_width,
                0 <= gy < glyph_height,
        ;
    }
}

/// Maps one coordinate of a glyph pixel to the canvas: the glyph is centred
/// on the axis, and a position that falls off the axis maps to nothing.
pub fn dest_coord(canvas: usize, size: usize, p: usize) -> (r: Option<usize>)
    ensures
        match spec_dest_coord(canvas as int, size as int, p as int) {
            Some(d) => r == Some(d as usize) && d < canvas,
            None => r is None,
        },
{
    if canvas >= size {
        let lead: usize = (canvas - size) / 2;
        if p < canvas - lead {
            Some(lead + p)
        } else {
            None
        }
    } else {
        let excess: usize = size - canvas;
        let cut: usize = excess / 2 + excess % 2;
        assert(centre_offset(canvas as int, size as int) == -(cut as int));
        if p >= cut && p - cut < canvas {
            Some(p - cut)
        } else {
            None
        }
    }
}

/// Maps pixel `(gx, gy)` of a glyph to its index in the row-major buffer of
/// the canvas on which the glyph is centred. A pixel that falls outside the
/// canvas has no index.
pub fn dest_index(
    glyph_width: usize,
    glyph_height: usize,
    canvas_width: usize,
    canvas_height: usize,
    gx: usize,
    gy: usize,
) -> (r: Option<usize>)
    requires
        canvas_width * canvas_height <= usize::MAX,
    ensures
        match spec_dest_index(
            glyph_width as int,
            glyph_height as int,
            canvas_width as int,
            canvas_height as int,
            gx as int,
            gy as int,
        ) {
            Some(k) => r == Some(k as usize) && k < canvas_width * canvas_height,
            None => r is None,
        },
{
    match dest_coord(canvas_width, glyph_width, gx) {
        Some(x) => match dest_coord(canvas_height, glyph_height, gy) {
            Some(y) => {
                assert(y * canvas_width + x < canvas_width * canvas_height) by (nonlinear_arith)
                    requires
                        0 <= x < canvas_width,
                        0 <= y < canvas_height,
                ;
                assert(0 <= y * canvas_width) by (nonlinear_arith)
                    requires
                        0 <= y,
                        0 <= canvas_width,
                ;
                Some(y * canvas_width + x)
            },
            None => None,
        },
        None => None,
    }
}

/// Composites one glyph onto a canvas of the given size.
///
/// The result has one byte per canvas pixel, row after row. The glyph is
/// centred on both axes, rounding the offsets down; its coverage is copied
/// unchanged, and every pixel it does not cover is 0. Glyph pixels that fall
/// outside the canvas are dropped.
pub fn composite(glyph: &GlyphRecord, canvas_width: usize, canvas_height: usize) -> (r: Vec<u8>)
    requires
        canvas_width * canvas_height <= usize::MAX,
    ensures
        r@ == spec_composite(glyph@, canvas_width as nat, canvas_height as nat),
{
    let glyph_width = glyph.width();
    let glyph_height = glyph.height();
    let coverage = glyph.coverage();
    let total = coverage.len();
    let ghost g = glyph@;
    let ghost cw = canvas_width as nat;
    let ghost ch = canvas_height as nat;
    let mut out: Vec<u8> = vec![0u8; canvas_width * canvas_height];
    assert(out@ =~= spec_partial(g, cw, ch, 0));
    let mut gx: usize = 0;
    let mut gy: usize = 0;
    let mut done: usize = 0;
    while gy < glyph_height
        invariant
            g == glyph@,
            cw == canvas_width,
            ch == canvas_height,
            glyph_width == g.width,
            glyph_height == g.height,
            glyph_width > 0,
            coverage@ == g.coverage,
            coverage@.len() == glyph_width * glyph_height,
            coverage@.len() == total,
            canvas_width * canvas_height <= usize::MAX,
            gy <= glyph_height,
            gx < glyph_width,
            gy == glyph_height ==> gx == 0,
            done == gy * glyph_width + gx,
            out@ == spec_partial(g, cw, ch, done as int),
        decreases glyph_height - gy, glyph_width - gx,
    {
        proof {
            assert(gy * glyph_width + gx < glyph_width * glyph_height) by (nonlinear_arith)
                requires
                    0 <= gx < glyph_width,
                    0 <= gy < glyph_height,
            ;
            assert(done < coverage@.len());
        }
        let target = dest_index(glyph_width, glyph_height, canvas_width, canvas_height, gx, gy);
        if let Some(k) = target {
            out.set(k, coverage[done]);
        }
        proof {
            let after = spec_partial(g, cw, ch, done + 1);
            assert forall|k: int| 0 <= k < cw * ch implies out@[k] == after[k] by {
                lemma_dest_source_inverse(
                    glyph_width as int,
                    glyph_height as int,
                    canvas_width as int,
                    canvas_height as int,
                    gx as int,
                    gy as int,
                    k,
                );
            }
            assert(out@ =~= after);
        }
        done += 1;
        gx += 1;
        if gx == glyph_width {
            gx = 0;
            gy += 1;
            assert(done == gy * glyph_width + gx) by (nonlinear_arith)
                requires
                    done == (gy - 1) * glyph_width + glyph_width,
                    gx == 0,
            ;
        }
    }
    proof {
        assert(done == glyph_width * glyph_height) by (nonlinear_arith)
            requires
                done == gy * glyph_width + gx,
                gx == 0,
                gy == glyph_height,
        ;
        assert forall|k: int| 0 <= k < cw * ch implies out@[k] == spec_composite(g, cw, ch)[k] by {
            lemma_source_in_coverage(
                glyph_width as int,
                glyph_height as int,
                canvas_width as int,
                canvas_height as int,
                k,
            );
        }
        assert(out@ =~= spec_composite(g, cw, ch));
    }
    out
}

/// Centring: the first pixel of a glyph of size `(w, h)` is sent to column
/// `(W - w) / 2` of row `(H - h) / 2` of a canvas of size `(W, H)`, both
/// rounded down. Where that place is on the canvas, the frame buffer holds
/// the pixel's coverage there; and it is on the canvas whenever the glyph is
/// no larger than the canvas.
pub proof fn lemma_origin_is_centred(g: GlyphView, canvas_width: nat, canvas_height: nat)
    requires
        g.wf(),
    ensures
        ({
            let x = centre_offset(canvas_width as int, g.width as int);
            let y = centre_offset(canvas_height as int, g.height as int);
            let on_canvas = 0 <= x < canvas_width && 0 <= y < canvas_height;
            &&& spec_dest_coord(canvas_width as int, g.width as int, 0) == if 0 <= x
                < canvas_width {
                Some(x)
            } else {
                None
            }
            &&& spec_dest_coord(canvas_height as int, g.height as int, 0) == if 0 <= y
                < canvas_height {
                Some(y)
            } else {
                None
            }
            &&& spec_dest_index(
                g.width as int,
                g.height as int,
                canvas_width as int,
                canvas_height as int,
                0,
                0,
            ) == if on_canvas {
                Some(y * canvas_width + x)
            } else {
                None
            }
            &&& on_canvas ==> 0 <= y * canvas_width + x < spec_composite(
                g,
                canvas_width,
                canvas_height,
            ).len() && spec_composite(g, canvas_width, canvas_height)[y * canvas_width + x]
                == g.coverage[0]
            &&& g.width <= canvas_width && g.height <= canvas_height ==> on_canvas
        }),
{
    let x = centre_offset(canvas_width as int, g.width as int);
    let y = centre_offset(canvas_height as int, g.height as int);
    lemma_dest_source_inverse(
        g.width as int,
        g.height as int,
        canvas_width as int,
        canvas_height as int,
        0,
        0,
        y * canvas_width + x,
    );
    assert(0 * g.width + 0 == 0);
}

/// Every glyph pixel that lands on the canvas keeps its coverage, and every
/// canvas pixel that no glyph pixel lands on is 0.
pub proof fn lemma_composite_pixels(g: GlyphView, canvas_width: nat, canvas_height: nat)
    requires
        g.wf(),
    ensures
        spec_composite(g, canvas_width, canvas_height).len() == canvas_width * canvas_height,
        forall|gx: int, gy: int|
            0 <= gx < g.width && 0 <= gy < g.height ==> match #[trigger] spec_dest_index(
                g.width as int,
                g.height as int,
                canvas_width as int,
                canvas_height as int,
                gx,
                gy,
            ) {
                Some(k) => 0 <= k < canvas_width * canvas_height && spec_composite(
                    g,
                    canvas_width,
                    canvas_height,
                )[k] == g.at(gx, gy),
                None => true,
            },
        forall|k: int|
            0 <= k < canvas_width * canvas_height && (#[trigger] spec_source_index(
                g.width as int,
                g.height as int,
                canvas_width as int,
                canvas_height as int,
                k,
            )) is None ==> spec_composite(g, canvas_width, canvas_height)[k] == 0,
{
    assert forall|gx: int, gy: int| 0 <= gx < g.width && 0 <= gy < g.height implies match #[trigger] spec_dest_index(
        g.width as int,
        g.height as int,
        canvas_width as int,
        canvas_height as int,
        gx,
        gy,
    ) {
        Some(k) => 0 <= k < canvas_width * canvas_height && spec_composite(
            g,
            canvas_width,
            canvas_height,
        )[k] == g.at(gx, gy),
        None => true,
    } by {
        let d = spec_dest_index(
            g.width as int,
            g.height as int,
            canvas_width as int,
            canvas_height as int,
            gx,
            gy,
        );
        if d is Some {
            lemma_dest_source_inverse(
                g.width as int,
                g.height as int,
                canvas_width as int,
                canvas_height as int,
                gx,
                gy,
                d->0,
            );
        }
    }
}

/// A glyph that is exactly as large as the canvas is its own frame buffer.
pub proof fn lemma_composite_of_full_size(g: GlyphView)
    requires
        g.wf(),
    ensures
        spec_composite(g, g.width, g.height) == g.coverage,
{
    let w = g.width as int;
    let h = g.height as int;
    assert forall|k: int| 0 <= k < g.width * g.height implies spec_source_index(w, h, w, h, k)
        == Some(k) by {
        lemma_fundamental_div_mod(k, w);
        assert(0 <= k / w < h) by (nonlinear_arith)
            requires
                0 <= k < w * h,
                0 < w,
                k == w * (k / w) + k % w,
                0 <= k % w < w,
        ;
        assert((k / w) * w + k % w == k) by (nonlinear_arith)
            requires
                k == w * (k / w) + k % w,
        ;
    }
    assert(spec_composite(g, g.width, g.height) =~= g.coverage);
}

} // verus!
