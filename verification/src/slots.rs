//! Template-anchored slot geometry.
//!
//! A laid-out glyph is reduced to whole-pixel placement data in a top-down
//! coordinate system (the text layout engine already produces whole-pixel
//! bounding boxes). The template string's tight bounding box and per-slot
//! offsets are derived here; compositing reuses those offsets for the real
//! time string so that every digit occupies a stable cell.

use vstd::prelude::*;

verus! {

/// One glyph's placement: the top-left corner of its bounding box in
/// whole-pixel top-down coordinates, and the box's size in pixels. A width or
/// height of 0 marks a non-printing glyph (whitespace), which compositing
/// skips without ever rasterizing it.
#[derive(Clone, Copy, PartialEq, Eq, Structural, Debug)]
pub struct Placement {
    pub x: i64,
    pub y: i64,
    pub width: usize,
    pub height: usize,
}

/// A glyph that actually covers pixels.
pub open spec fn nonzero(g: Placement) -> bool {
    g.width > 0 && g.height > 0
}

/// Some glyph among the first `n` has positive area.
pub open spec fn has_area_upto(t: Seq<Placement>, n: int) -> bool {
    exists|i: int| 0 <= i < n && nonzero(t[i])
}

/// Some glyph of the layout has positive area; when none has, a frame
/// degrades to its background-only state instead of rendering.
pub open spec fn has_area(t: Seq<Placement>) -> bool {
    has_area_upto(t, t.len() as int)
}

/// Start value of the running minimum: above every `i64` coordinate.
pub open spec fn min_fold_start() -> int {
    0x8000_0000_0000_0000
}

/// Start value of the running maximum: below every reachable box edge.
pub open spec fn max_fold_start() -> int {
    -0x8000_0000_0000_0001
}

/// Minimum `x` over the non-printing-filtered first `n` glyphs.
pub open spec fn min_x_upto(t: Seq<Placement>, n: int) -> int
    decreases n,
{
    if n <= 0 {
        min_fold_start()
    } else {
        let prev = min_x_upto(t, n - 1);
        if nonzero(t[n - 1]) && t[n - 1].x < prev {
            t[n - 1].x as int
        } else {
            prev
        }
    }
}

/// Minimum `y` over the first `n` glyphs with area.
pub open spec fn min_y_upto(t: Seq<Placement>, n: int) -> int
    decreases n,
{
    if n <= 0 {
        min_fold_start()
    } else {
        let prev = min_y_upto(t, n - 1);
        if nonzero(t[n - 1]) && t[n - 1].y < prev {
            t[n - 1].y as int
        } else {
            prev
        }
    }
}

/// Maximum right edge (`x + width`) over the first `n` glyphs with area.
pub open spec fn max_x_upto(t: Seq<Placement>, n: int) -> int
    decreases n,
{
    if n <= 0 {
        max_fold_start()
    } else {
        let prev = max_x_upto(t, n - 1);
        if nonzero(t[n - 1]) && t[n - 1].x + t[n - 1].width > prev {
            t[n - 1].x + t[n - 1].width
        } else {
            prev
        }
    }
}

/// Maximum bottom edge (`y + height`) over the first `n` glyphs with area.
pub open spec fn max_y_upto(t: Seq<Placement>, n: int) -> int
    decreases n,
{
    if n <= 0 {
        max_fold_start()
    } else {
        let prev = max_y_upto(t, n - 1);
        if nonzero(t[n - 1]) && t[n - 1].y + t[n - 1].height > prev {
            t[n - 1].y + t[n - 1].height
        } else {
            prev
        }
    }
}

/// Left edge of the template's tight bounding box.
pub open spec fn tpl_min_x(t: Seq<Placement>) -> int {
    min_x_upto(t, t.len() as int)
}

/// Top edge of the template's tight bounding box.
pub open spec fn tpl_min_y(t: Seq<Placement>) -> int {
    min_y_upto(t, t.len() as int)
}

/// Right edge of the template's tight bounding box.
pub open spec fn tpl_max_x(t: Seq<Placement>) -> int {
    max_x_upto(t, t.len() as int)
}

/// Bottom edge of the template's tight bounding box.
pub open spec fn tpl_max_y(t: Seq<Placement>) -> int {
    max_y_upto(t, t.len() as int)
}

/// Offset that centers a box spanning `lo..hi` in a canvas of size `canvas`
/// (floor of the halved slack, exactly as the all-integer pipeline computes
/// it).
pub open spec fn center_offset(canvas: int, lo: int, hi: int) -> int {
    (canvas - (hi - lo)) / 2
}

/// Canvas x-coordinate at which slot `i` is composited: the template glyph's
/// offset from the template box origin, shifted by the centering offset of
/// the template box itself. The real string's own layout plays no part.
pub open spec fn slot_origin_x(t: Seq<Placement>, canvas_w: int, i: int) -> int {
    t[i].x - tpl_min_x(t) + center_offset(canvas_w, tpl_min_x(t), tpl_max_x(t))
}

/// Canvas y-coordinate at which slot `i` is composited.
pub open spec fn slot_origin_y(t: Seq<Placement>, canvas_h: int, i: int) -> int {
    t[i].y - tpl_min_y(t) + center_offset(canvas_h, tpl_min_y(t), tpl_max_y(t))
}

/// The template's tight bounding box, as computed by `template_geometry`.
#[derive(Clone, Copy, PartialEq, Eq, Structural, Debug)]
pub struct TemplateBox {
    pub min_x: i128,
    pub min_y: i128,
    pub max_x: i128,
    pub max_y: i128,
}

/// A row-major pixel index decomposes into its coordinates: for
/// `p == y * w + x` with `x` inside the row, `p / w == y` and `p % w == x`.
pub proof fn lemma_cell(p: int, x: int, y: int, w: int)
    requires
        p == y * w + x,
        0 <= x < w,
        0 <= y,
    ensures
        p / w == y,
        p % w == x,
{
    vstd::arithmetic::div_mod::lemma_div_multiples_vanish_fancy(y, x, w);
    vstd::arithmetic::div_mod::lemma_mod_multiples_vanish(y, x, w);
    vstd::arithmetic::div_mod::lemma_small_mod(x as nat, w as nat);
}

/// The four running folds stay in narrow, overflow-safe ranges.
pub proof fn lemma_bbox_bounds(t: Seq<Placement>, n: int)
    requires
        n <= t.len(),
    ensures
        -0x8000_0000_0000_0000 <= min_x_upto(t, n) <= min_fold_start(),
        -0x8000_0000_0000_0000 <= min_y_upto(t, n) <= min_fold_start(),
        max_fold_start() <= max_x_upto(t, n) < 0x1_8000_0000_0000_0000,
        max_fold_start() <= max_y_upto(t, n) < 0x1_8000_0000_0000_0000,
    decreases n,
{
    if n > 0 {
        lemma_bbox_bounds(t, n - 1);
    }
}

/// Computes the template's tight bounding box over its glyphs with positive
/// area: `None` exactly when no glyph has area.
pub fn template_geometry(template: &Vec<Placement>) -> (r: Option<TemplateBox>)
    ensures
        r is Some <==> has_area(template@),
        r matches Some(b) ==> {
            &&& b.min_x == tpl_min_x(template@)
            &&& b.min_y == tpl_min_y(template@)
            &&& b.max_x == tpl_max_x(template@)
            &&& b.max_y == tpl_max_y(template@)
        },
{
    let mut min_x: i128 = 0x8000_0000_0000_0000;
    let mut min_y: i128 = 0x8000_0000_0000_0000;
    let mut max_x: i128 = -0x8000_0000_0000_0001;
    let mut max_y: i128 = -0x8000_0000_0000_0001;
    let mut any: bool = false;
    let mut k: usize = 0;
    while k < template.len()
        invariant
            k <= template@.len(),
            any == has_area_upto(template@, k as int),
            min_x == min_x_upto(template@, k as int),
            min_y == min_y_upto(template@, k as int),
            max_x == max_x_upto(template@, k as int),
            max_y == max_y_upto(template@, k as int),
        decreases template@.len() - k,
    {
        let g = template[k];
        if g.width > 0 && g.height > 0 {
            any = true;
            if (g.x as i128) < min_x {
                min_x = g.x as i128;
            }
            if (g.y as i128) < min_y {
                min_y = g.y as i128;
            }
            if g.x as i128 + g.width as i128 > max_x {
                max_x = g.x as i128 + g.width as i128;
            }
            if g.y as i128 + g.height as i128 > max_y {
                max_y = g.y as i128 + g.height as i128;
            }
        }
        k = k + 1;
    }
    if any {
        Some(TemplateBox { min_x, min_y, max_x, max_y })
    } else {
        None
    }
}

/// Floor of `a / 2`, for the centering offset.
fn div_floor_2(a: i128) -> (r: i128)
    requires
        -0x1_0000_0000_0000_0000_0000 <= a <= 0x1_0000_0000_0000_0000_0000,
    ensures
        r == a as int / 2,
{
    if a >= 0 {
        a / 2
    } else {
        let m: i128 = -a;
        let q: i128 = (m + 1) / 2;
        proof {
            vstd::arithmetic::div_mod::lemma_fundamental_div_mod(m as int, 2);
        }
        -q
    }
}

/// Computes the centering offset of a box spanning `lo..hi` in a canvas of
/// size `canvas`.
pub fn centering_offset(canvas: usize, lo: i128, hi: i128) -> (r: i128)
    requires
        -0x8000_0000_0000_0000 <= lo <= 0x8000_0000_0000_0000,
        -0x8000_0000_0000_0001 <= hi < 0x1_8000_0000_0000_0000,
    ensures
        r == center_offset(canvas as int, lo as int, hi as int),
{
    div_floor_2(canvas as i128 - (hi - lo))
}

} // verus!
