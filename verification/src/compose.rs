//! Anti-aliased compositing of glyph coverage bitmaps onto a single frame's
//! palette-index canvas, anchored to the template's slot offsets.

use vstd::prelude::*;
use crate::BACKGROUND_INDEX;
use crate::slots::Placement;
use crate::slots::TemplateBox;
use crate::slots::center_offset;
use crate::slots::has_area;
use crate::slots::lemma_bbox_bounds;
use crate::slots::lemma_cell;
use crate::slots::nonzero;
use crate::slots::slot_origin_x;
use crate::slots::slot_origin_y;
use crate::slots::template_geometry;
use crate::slots::centering_offset;
use crate::slots::tpl_min_x;
use crate::slots::tpl_min_y;
use crate::slots::tpl_max_x;
use crate::slots::tpl_max_y;

verus! {

/// A glyph's pixel-coverage bitmap: row-major, one byte per pixel, 0 meaning
/// the glyph does not touch the pixel and 255 full coverage.
pub struct Bitmap {
    pub width: usize,
    pub height: usize,
    pub coverage: Vec<u8>,
}

impl Bitmap {
    /// The coverage vector holds exactly one byte per bitmap pixel.
    pub open spec fn wf(&self) -> bool {
        self.coverage@.len() == self.width * self.height
    }

    /// The bitmap reduced to its record: dimensions and coverage bytes.
    pub open spec fn rec(&self) -> (usize, usize, Seq<u8>) {
        (self.width, self.height, self.coverage@)
    }

    /// An empty placeholder bitmap, drawn as a no-op.
    pub fn empty() -> (r: Bitmap)
        ensures
            r.wf(),
            r.width == 0,
            r.height == 0,
    {
        Bitmap { width: 0, height: 0, coverage: Vec::new() }
    }
}

/// The records of a bitmap sequence, in order.
pub open spec fn bitmap_recs(s: Seq<Bitmap>) -> Seq<(usize, usize, Seq<u8>)> {
    s.map_values(|b: Bitmap| b.rec())
}

/// Gradient bucket of a coverage byte: `floor(c * levels / 255)`. Coverage 0
/// always maps to bucket 0 and never touches the canvas.
pub open spec fn level_of(c: u8, levels: u8) -> int {
    (c as int * levels as int) / 255
}

/// Palette index written for a coverage byte: the background index plus the
/// gradient bucket, capped at `levels`.
pub open spec fn shade(c: u8, levels: u8) -> u8 {
    let lv = level_of(c, levels);
    let capped: int = if lv <= levels as int {
        lv
    } else {
        levels as int
    };
    (BACKGROUND_INDEX + capped) as u8
}

/// A freshly reset canvas: every pixel holds the background index.
pub open spec fn bg_canvas(w: int, h: int) -> Seq<u8> {
    Seq::new((w * h) as nat, |p: int| BACKGROUND_INDEX)
}

/// `buf` after one glyph bitmap is composited at canvas origin `(ox, oy)`:
/// canvas pixels under a coverage byte with a positive gradient bucket take
/// that byte's shade; every other pixel (including everything the bitmap
/// overhangs off-canvas) keeps its value.
pub open spec fn draw_glyph(
    buf: Seq<u8>,
    w: int,
    ox: int,
    oy: int,
    bw: int,
    bh: int,
    cov: Seq<u8>,
    levels: u8,
) -> Seq<u8> {
    Seq::new(
        buf.len(),
        |p: int|
            {
                let x = p % w;
                let y = p / w;
                if ox <= x < ox + bw && oy <= y < oy + bh && level_of(
                    cov[(y - oy) * bw + (x - ox)],
                    levels,
                ) > 0 {
                    shade(cov[(y - oy) * bw + (x - ox)], levels)
                } else {
                    buf[p]
                }
            },
    )
}

/// Slot `i` is drawn only when both the real glyph and the template glyph at
/// that index have positive area; otherwise the slot is skipped.
pub open spec fn drawn(t: Seq<Placement>, g: Seq<Placement>, i: int) -> bool {
    nonzero(g[i]) && nonzero(t[i])
}

/// The canvas after the first `n` slots have been composited onto the
/// background, each drawn glyph placed at its template-anchored origin.
pub open spec fn composed_upto(
    w: int,
    h: int,
    t: Seq<Placement>,
    g: Seq<Placement>,
    bm: Seq<(usize, usize, Seq<u8>)>,
    levels: u8,
    n: int,
) -> Seq<u8>
    decreases n,
{
    if n <= 0 {
        bg_canvas(w, h)
    } else {
        let prev = composed_upto(w, h, t, g, bm, levels, n - 1);
        if drawn(t, g, n - 1) {
            draw_glyph(
                prev,
                w,
                slot_origin_x(t, w, n - 1),
                slot_origin_y(t, h, n - 1),
                bm[n - 1].0 as int,
                bm[n - 1].1 as int,
                bm[n - 1].2,
                levels,
            )
        } else {
            prev
        }
    }
}

/// The composited frame. A missing real string, a glyph-count mismatch with
/// the template, or a template without any positive-area glyph all degrade to
/// the untouched background canvas - never to a partial render.
pub open spec fn compose_spec(
    w: int,
    h: int,
    t: Seq<Placement>,
    g: Seq<Placement>,
    bm: Seq<(usize, usize, Seq<u8>)>,
    levels: u8,
) -> Seq<u8> {
    if g.len() == 0 || t.len() != g.len() || !has_area(t) {
        bg_canvas(w, h)
    } else {
        composed_upto(w, h, t, g, bm, levels, g.len() as int)
    }
}

proof fn lemma_pos_dims(w: int, h: int)
    requires
        w * h > 0,
        w >= 0,
        h >= 0,
    ensures
        w > 0,
        h > 0,
{
    assert(w > 0 && h > 0) by (nonlinear_arith)
        requires
            w * h > 0,
            w >= 0,
            h >= 0,
    ;
}

proof fn lemma_row_of(p: int, w: int, h: int)
    requires
        0 <= p < w * h,
        0 < w,
    ensures
        0 <= p / w < h,
        0 <= p % w < w,
        p == (p / w) * w + (p % w),
{
    vstd::arithmetic::div_mod::lemma_fundamental_div_mod(p, w);
    vstd::arithmetic::mul::lemma_mul_is_commutative(w, p / w);
    if p / w >= h {
        vstd::arithmetic::mul::lemma_mul_inequality(h, p / w, w);
        vstd::arithmetic::mul::lemma_mul_is_commutative(h, w);
    }
}

/// The gradient bucket of any coverage byte is between 0 and `levels`, so the
/// shade written for it is between the background index and the darkest
/// gradient entry.
pub proof fn lemma_shade_range(c: u8, levels: u8)
    requires
        levels <= 254,
    ensures
        0 <= level_of(c, levels) <= levels,
        BACKGROUND_INDEX <= shade(c, levels) <= BACKGROUND_INDEX + levels,
{
    vstd::arithmetic::mul::lemma_mul_nonnegative(c as int, levels as int);
    vstd::arithmetic::mul::lemma_mul_inequality(c as int, 255, levels as int);
    vstd::arithmetic::mul::lemma_mul_is_commutative(255, levels as int);
    vstd::arithmetic::div_mod::lemma_div_is_ordered(
        c as int * levels as int,
        255 * (levels as int),
        255,
    );
    vstd::arithmetic::div_mod::lemma_div_multiples_vanish(levels as int, 255);
}

/// Composites one coverage bitmap onto the canvas at origin `(ox, oy)`,
/// clipping silently at the canvas bounds.
pub fn blit_glyph(
    buffer: &mut Vec<u8>,
    width: usize,
    height: usize,
    ox: i128,
    oy: i128,
    bmp: &Bitmap,
    levels: u8,
)
    requires
        old(buffer)@.len() == width * height,
        bmp.wf(),
        1 <= levels <= 254,
        -0x1_0000_0000_0000_0000_0000 <= ox <= 0x1_0000_0000_0000_0000_0000,
        -0x1_0000_0000_0000_0000_0000 <= oy <= 0x1_0000_0000_0000_0000_0000,
    ensures
        final(buffer)@ == draw_glyph(
            old(buffer)@,
            width as int,
            ox as int,
            oy as int,
            bmp.width as int,
            bmp.height as int,
            bmp.coverage@,
            levels,
        ),
{
    let ghost target = draw_glyph(
        old(buffer)@,
        width as int,
        ox as int,
        oy as int,
        bmp.width as int,
        bmp.height as int,
        bmp.coverage@,
        levels,
    );
    // Reading the lengths as usize bounds the pixel and coverage counts.
    let _len: usize = buffer.len();
    let _clen: usize = bmp.coverage.len();
    let bw: usize = bmp.width;
    let bh: usize = bmp.height;
    let mut by: usize = 0;
    while by < bh
        invariant
            by <= bh,
            bw == bmp.width,
            bh == bmp.height,
            bw * bh <= usize::MAX,
            bmp.wf(),
            1 <= levels <= 254,
            -0x1_0000_0000_0000_0000_0000 <= ox <= 0x1_0000_0000_0000_0000_0000,
            -0x1_0000_0000_0000_0000_0000 <= oy <= 0x1_0000_0000_0000_0000_0000,
            width * height <= usize::MAX,
            buffer@.len() == width * height,
            target == draw_glyph(
                old(buffer)@,
                width as int,
                ox as int,
                oy as int,
                bw as int,
                bh as int,
                bmp.coverage@,
                levels,
            ),
            target.len() == width * height,
            forall|p: int|
                #![trigger buffer@[p]]
                0 <= p < buffer@.len() ==> {
                    let x = p % width as int;
                    let y = p / width as int;
                    if ox <= x < ox + bw && oy <= y < oy + bh && y - oy < by {
                        buffer@[p] == target[p]
                    } else {
                        buffer@[p] == old(buffer)@[p]
                    }
                },
        decreases bh - by,
    {
        let py_i: i128 = oy + by as i128;
        if 0 <= py_i && py_i < height as i128 {
            let py: usize = py_i as usize;
            let mut bx: usize = 0;
            while bx < bw
                invariant
                    by < bh,
                    bx <= bw,
                    bw == bmp.width,
                    bh == bmp.height,
                    bw * bh <= usize::MAX,
                    bmp.wf(),
                    1 <= levels <= 254,
                    -0x1_0000_0000_0000_0000_0000 <= ox <= 0x1_0000_0000_0000_0000_0000,
                    py == oy + by,
                    0 <= py < height,
                    width * height <= usize::MAX,
                    buffer@.len() == width * height,
                    target == draw_glyph(
                        old(buffer)@,
                        width as int,
                        ox as int,
                        oy as int,
                        bw as int,
                        bh as int,
                        bmp.coverage@,
                        levels,
                    ),
                    target.len() == width * height,
                    forall|p: int|
                        #![trigger buffer@[p]]
                        0 <= p < buffer@.len() ==> {
                            let x = p % width as int;
                            let y = p / width as int;
                            if ox <= x < ox + bw && oy <= y < oy + bh && (y - oy < by || (y - oy
                                == by && x - ox < bx)) {
                                buffer@[p] == target[p]
                            } else {
                                buffer@[p] == old(buffer)@[p]
                            }
                        },
                decreases bw - bx,
            {
                let px_i: i128 = ox + bx as i128;
                if 0 <= px_i && px_i < width as i128 {
                    let px: usize = px_i as usize;
                    proof {
                        assert(by * bw + bx < bw * bh) by (nonlinear_arith)
                            requires
                                0 <= bx < bw,
                                0 <= by < bh,
                        ;
                        assert(py * width + px < width * height) by (nonlinear_arith)
                            requires
                                0 <= px < width,
                                0 <= py < height,
                        ;
                    }
                    let cov_idx: usize = by * bw + bx;
                    let c: u8 = bmp.coverage[cov_idx];
                    proof {
                        lemma_shade_range(c, levels);
                        assert(c as int * levels as int <= 255 * 254) by (nonlinear_arith)
                            requires
                                0 <= c <= 255,
                                0 <= levels <= 254,
                        ;
                    }
                    let level: u16 = (c as u16 * levels as u16) / 255;
                    let idx: usize = py * width + px;
                    proof {
                        lemma_cell(idx as int, px as int, py as int, width as int);
                    }
                    if level > 0 {
                        let capped: u8 = if level as u8 > levels {
                            levels
                        } else {
                            level as u8
                        };
                        buffer.set(idx, BACKGROUND_INDEX + capped);
                        proof {
                            assert(buffer@[idx as int] == target[idx as int]);
                        }
                    }
                    proof {
                        assert forall|p: int| #![trigger buffer@[p]]
                            0 <= p < buffer@.len() implies {
                                let x = p % width as int;
                                let y = p / width as int;
                                if ox <= x < ox + bw && oy <= y < oy + bh && (y - oy < by || (y
                                    - oy == by && x - ox < bx + 1)) {
                                    buffer@[p] == target[p]
                                } else {
                                    buffer@[p] == old(buffer)@[p]
                                }
                            } by {
                            let x = p % width as int;
                            let y = p / width as int;
                            lemma_row_of(p, width as int, height as int);
                            if p == idx {
                            } else {
                                if y == py && x == px {
                                    lemma_cell(p, x, y, width as int);
                                    assert(false);
                                }
                            }
                        }
                    }
                } else {
                    proof {
                        assert forall|p: int| #![trigger buffer@[p]]
                            0 <= p < buffer@.len() implies {
                                let x = p % width as int;
                                let y = p / width as int;
                                if ox <= x < ox + bw && oy <= y < oy + bh && (y - oy < by || (y
                                    - oy == by && x - ox < bx + 1)) {
                                    buffer@[p] == target[p]
                                } else {
                                    buffer@[p] == old(buffer)@[p]
                                }
                            } by {
                            lemma_pos_dims(width as int, height as int);
                            lemma_row_of(p, width as int, height as int);
                        }
                    }
                }
                bx = bx + 1;
            }
        } else {
            proof {
                assert forall|p: int| #![trigger buffer@[p]]
                    0 <= p < buffer@.len() implies {
                        let x = p % width as int;
                        let y = p / width as int;
                        if ox <= x < ox + bw && oy <= y < oy + bh && y - oy < by + 1 {
                            buffer@[p] == target[p]
                        } else {
                            buffer@[p] == old(buffer)@[p]
                        }
                    } by {
                    lemma_pos_dims(width as int, height as int);
                    lemma_row_of(p, width as int, height as int);
                }
            }
        }
        by = by + 1;
    }
    proof {
        assert forall|p: int| 0 <= p < buffer@.len() implies buffer@[p] == target[p] by {
            if buffer@.len() > 0 {
                assert(width as int > 0) by (nonlinear_arith)
                    requires
                        width as int * (height as int) > 0,
                        width as int >= 0,
                ;
                lemma_row_of(p, width as int, height as int);
            }
        }
        assert(buffer@ =~= target);
    }
}

/// Composites the real time string onto a fresh background canvas, reusing
/// the template's slot offsets so that every digit occupies a stable cell.
/// `bitmaps[i]` is the coverage bitmap for the real glyph at slot `i` (an
/// empty bitmap for slots that are skipped). A glyph-count mismatch or a
/// template without area yields the untouched background canvas.
pub fn compose_frame(
    width: usize,
    height: usize,
    template: &Vec<Placement>,
    glyphs: &Vec<Placement>,
    bitmaps: &Vec<Bitmap>,
    levels: u8,
) -> (r: Vec<u8>)
    requires
        width * height <= usize::MAX,
        1 <= levels <= 254,
        bitmaps@.len() == glyphs@.len(),
        forall|i: int| 0 <= i < bitmaps@.len() ==> bitmaps@[i].wf(),
    ensures
        r@ == compose_spec(
            width as int,
            height as int,
            template@,
            glyphs@,
            bitmap_recs(bitmaps@),
            levels,
        ),
        r@.len() == width * height,
{
    let total: usize = width * height;
    let mut canvas: Vec<u8> = Vec::new();
    let mut p: usize = 0;
    while p < total
        invariant
            p <= total,
            canvas@.len() == p,
            forall|q: int| 0 <= q < p ==> canvas@[q] == BACKGROUND_INDEX,
        decreases total - p,
    {
        canvas.push(BACKGROUND_INDEX);
        p = p + 1;
    }
    proof {
        assert(canvas@ =~= bg_canvas(width as int, height as int));
    }
    if glyphs.len() == 0 || template.len() != glyphs.len() {
        return canvas;
    }
    let geom = template_geometry(template);
    let tb: TemplateBox = match geom {
        Some(tb) => tb,
        None => {
            return canvas;
        },
    };
    proof {
        lemma_bbox_bounds(template@, template@.len() as int);
    }
    let off_x: i128 = centering_offset(width, tb.min_x, tb.max_x);
    let off_y: i128 = centering_offset(height, tb.min_y, tb.max_y);
    let n: usize = glyphs.len();
    let mut i: usize = 0;
    while i < n
        invariant
            i <= n,
            n == glyphs@.len(),
            template@.len() == glyphs@.len(),
            bitmaps@.len() == glyphs@.len(),
            forall|j: int| 0 <= j < bitmaps@.len() ==> bitmaps@[j].wf(),
            width * height <= usize::MAX,
            1 <= levels <= 254,
            has_area(template@),
            tb.min_x == tpl_min_x(template@),
            tb.min_y == tpl_min_y(template@),
            tb.max_x == tpl_max_x(template@),
            tb.max_y == tpl_max_y(template@),
            -0x8000_0000_0000_0000 <= tb.min_x <= 0x8000_0000_0000_0000,
            -0x8000_0000_0000_0000 <= tb.min_y <= 0x8000_0000_0000_0000,
            off_x == center_offset(width as int, tb.min_x as int, tb.max_x as int),
            off_y == center_offset(height as int, tb.min_y as int, tb.max_y as int),
            -0x2_0000_0000_0000_0000 <= off_x <= 0x2_0000_0000_0000_0000,
            -0x2_0000_0000_0000_0000 <= off_y <= 0x2_0000_0000_0000_0000,
            canvas@.len() == width * height,
            canvas@ == composed_upto(
                width as int,
                height as int,
                template@,
                glyphs@,
                bitmap_recs(bitmaps@),
                levels,
                i as int,
            ),
        decreases n - i,
    {
        let g: Placement = glyphs[i];
        let t: Placement = template[i];
        if g.width > 0 && g.height > 0 && t.width > 0 && t.height > 0 {
            let ox: i128 = t.x as i128 - tb.min_x + off_x;
            let oy: i128 = t.y as i128 - tb.min_y + off_y;
            let bmp = &bitmaps[i];
            blit_glyph(&mut canvas, width, height, ox, oy, bmp, levels);
        }
        i = i + 1;
    }
    canvas
}

proof fn lemma_composed_upto_no_jitter(
    w: int,
    h: int,
    t: Seq<Placement>,
    g1: Seq<Placement>,
    g2: Seq<Placement>,
    bm: Seq<(usize, usize, Seq<u8>)>,
    levels: u8,
    n: int,
)
    requires
        g1.len() == g2.len(),
        forall|i: int| 0 <= i < g1.len() ==> (nonzero(g1[i]) <==> nonzero(g2[i])),
        n <= g1.len(),
    ensures
        composed_upto(w, h, t, g1, bm, levels, n) == composed_upto(w, h, t, g2, bm, levels, n),
    decreases n,
{
    if n > 0 {
        lemma_composed_upto_no_jitter(w, h, t, g1, g2, bm, levels, n - 1);
    }
}

/// Jitter-freedom of template anchoring: the composited canvas does not
/// depend on the real glyphs' own layout coordinates - only on which slots
/// have area, on the template's geometry, and on the supplied bitmaps. Two
/// layouts of different strings that agree slot-by-slot in having area (and
/// are drawn with the same bitmaps at each slot, e.g. the separator glyphs of
/// two time strings) produce pixel-identical canvases.
pub proof fn lemma_no_jitter(
    w: int,
    h: int,
    t: Seq<Placement>,
    g1: Seq<Placement>,
    g2: Seq<Placement>,
    bm: Seq<(usize, usize, Seq<u8>)>,
    levels: u8,
)
    requires
        g1.len() == g2.len(),
        forall|i: int| 0 <= i < g1.len() ==> (nonzero(g1[i]) <==> nonzero(g2[i])),
    ensures
        compose_spec(w, h, t, g1, bm, levels) == compose_spec(w, h, t, g2, bm, levels),
{
    lemma_composed_upto_no_jitter(w, h, t, g1, g2, bm, levels, g1.len() as int);
}

proof fn lemma_composed_upto_range(
    w: int,
    h: int,
    t: Seq<Placement>,
    g: Seq<Placement>,
    bm: Seq<(usize, usize, Seq<u8>)>,
    levels: u8,
    n: int,
)
    requires
        levels <= 254,
    ensures
        forall|p: int|
            #![trigger composed_upto(w, h, t, g, bm, levels, n)[p]]
            0 <= p < composed_upto(w, h, t, g, bm, levels, n).len()
                ==> BACKGROUND_INDEX <= composed_upto(w, h, t, g, bm, levels, n)[p]
                <= BACKGROUND_INDEX + levels,
    decreases n,
{
    if n > 0 {
        lemma_composed_upto_range(w, h, t, g, bm, levels, n - 1);
        let prev = composed_upto(w, h, t, g, bm, levels, n - 1);
        let cur = composed_upto(w, h, t, g, bm, levels, n);
        assert forall|p: int| #![trigger cur[p]]
            0 <= p < cur.len() implies BACKGROUND_INDEX <= cur[p] <= BACKGROUND_INDEX + levels by {
            assert(BACKGROUND_INDEX <= prev[p] <= BACKGROUND_INDEX + levels);
            if drawn(t, g, n - 1) {
                let bw = bm[n - 1].0 as int;
                let cov = bm[n - 1].2;
                let x = p % w;
                let y = p / w;
                let ox = slot_origin_x(t, w, n - 1);
                let oy = slot_origin_y(t, h, n - 1);
                if ox <= x < ox + bw && oy <= y < oy + bm[n - 1].1 as int && level_of(
                    cov[(y - oy) * bw + (x - ox)],
                    levels,
                ) > 0 {
                    lemma_shade_range(cov[(y - oy) * bw + (x - ox)], levels);
                }
            }
        }
    }
}

/// Every pixel of a composited canvas is the background index or one of the
/// `levels` gradient shades above it: never the transparent index, and always
/// a valid index into a palette of `levels + 2` entries.
pub proof fn lemma_compose_range(
    w: int,
    h: int,
    t: Seq<Placement>,
    g: Seq<Placement>,
    bm: Seq<(usize, usize, Seq<u8>)>,
    levels: u8,
)
    requires
        levels <= 254,
    ensures
        forall|p: int|
            #![trigger compose_spec(w, h, t, g, bm, levels)[p]]
            0 <= p < compose_spec(w, h, t, g, bm, levels).len() ==> BACKGROUND_INDEX
                <= compose_spec(w, h, t, g, bm, levels)[p] <= BACKGROUND_INDEX + levels,
{
    lemma_composed_upto_range(w, h, t, g, bm, levels, g.len() as int);
}

} // verus!
