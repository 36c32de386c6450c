//! Rounding the canvas corners by rewriting background pixels to the
//! transparent palette index.

use vstd::prelude::*;
use crate::BACKGROUND_INDEX;
use crate::TRANSPARENT_INDEX;
use crate::slots::lemma_cell;

verus! {

/// The effective mask radius: the configured radius clamped to half the
/// canvas width and half the canvas height.
pub open spec fn clamped_radius(radius: u32, w: int, h: int) -> int {
    let r1: int = if radius <= w / 2 {
        radius as int
    } else {
        w / 2
    };
    if r1 <= h / 2 {
        r1
    } else {
        h / 2
    }
}

/// The coordinate of `v` within a corner band of size `r`, or `None` when `v`
/// lies in the middle of its axis: `Some(v)` within `r` of the low edge,
/// mirrored to `Some(extent - 1 - v)` within `r` of the high edge.
pub open spec fn corner_cell(v: int, extent: int, r: int) -> Option<int> {
    if v < r {
        Some(v)
    } else if v >= extent - r {
        Some(extent - 1 - v)
    } else {
        None
    }
}

/// True when pixel `(x, y)` lies in one of the four radius-by-radius corner
/// squares and strictly outside that corner's inset circle of radius `r`
/// (whose center sits `r` pixels into the canvas along both axes): its
/// squared distance from the center strictly exceeds `r * r`, so pixels on
/// the arc itself keep the background.
pub open spec fn outside_corner_arc(x: int, y: int, w: int, h: int, r: int) -> bool {
    match (corner_cell(x, w, r), corner_cell(y, h, r)) {
        (Some(cx), Some(cy)) => (cx - r) * (cx - r) + (cy - r) * (cy - r) > r * r,
        _ => false,
    }
}

/// The buffer after corner masking: every background pixel outside a corner
/// arc becomes transparent; every other pixel keeps its value.
pub open spec fn masked_spec(buf: Seq<u8>, w: int, h: int, radius: u32) -> Seq<u8> {
    let r = clamped_radius(radius, w, h);
    Seq::new(
        buf.len(),
        |p: int|
            if outside_corner_arc(p % w, p / w, w, h, r) && buf[p] == BACKGROUND_INDEX {
                TRANSPARENT_INDEX
            } else {
                buf[p]
            },
    )
}

fn masked_at(x: usize, y: usize, width: usize, height: usize, r: u32) -> (b: bool)
    requires
        0 < r,
        r <= width as int / 2,
        r <= height as int / 2,
        x < width,
        y < height,
    ensures
        b == outside_corner_arc(x as int, y as int, width as int, height as int, r as int),
{
    let r_us: usize = r as usize;
    let cx: usize = if x < r_us {
        x
    } else if x >= width - r_us {
        width - 1 - x
    } else {
        return false;
    };
    let cy: usize = if y < r_us {
        y
    } else if y >= height - r_us {
        height - 1 - y
    } else {
        return false;
    };
    let dx: u128 = (r_us - cx) as u128;
    let dy: u128 = (r_us - cy) as u128;
    let rr: u128 = r as u128;
    proof {
        assert(dx * dx <= rr * rr && dy * dy <= rr * rr) by (nonlinear_arith)
            requires
                0 <= dx <= rr,
                0 <= dy <= rr,
        ;
        assert(rr * rr < 0x10000000000000000u128) by (nonlinear_arith)
            requires
                rr < 0x100000000u128,
        ;
        assert((cx as int - r as int) * (cx as int - r as int) == dx as int * (dx as int))
            by (nonlinear_arith)
            requires
                dx == r as int - cx as int,
        ;
        assert((cy as int - r as int) * (cy as int - r as int) == dy as int * (dy as int))
            by (nonlinear_arith)
            requires
                dy == r as int - cy as int,
        ;
    }
    dx * dx + dy * dy > rr * rr
}

/// Applies the corner mask in place. The radius is clamped to half of each
/// canvas dimension; a resulting radius of 0 leaves the buffer untouched.
/// Only pixels holding the background index are ever rewritten, and only to
/// the transparent index.
pub fn apply_corner_mask(buffer: &mut Vec<u8>, width: usize, height: usize, radius: u32)
    requires
        old(buffer)@.len() == width * height,
    ensures
        final(buffer)@ == masked_spec(old(buffer)@, width as int, height as int, radius),
{
    let ghost target = masked_spec(old(buffer)@, width as int, height as int, radius);
    // Reading the length as usize bounds the pixel count.
    let _len: usize = buffer.len();
    assert(width * height <= usize::MAX);
    let w2: usize = width / 2;
    let h2: usize = height / 2;
    let mut r: u32 = radius;
    if w2 < r as usize {
        r = w2 as u32;
    }
    if h2 < r as usize {
        r = h2 as u32;
    }
    assert(r == clamped_radius(radius, width as int, height as int));
    if r == 0 {
        proof {
            assert forall|p: int| 0 <= p < buffer@.len() implies buffer@[p] == target[p] by {
                assert(width as int > 0) by (nonlinear_arith)
                    requires
                        width as int * (height as int) > 0,
                        width as int >= 0,
                ;
                assert(0 <= p % (width as int) < width as int);
            }
            assert(buffer@ =~= target);
        }
        return ;
    }
    let mut y: usize = 0;
    while y < height
        invariant
            0 < r,
            r == clamped_radius(radius, width as int, height as int),
            r <= width as int / 2,
            r <= height as int / 2,
            y <= height,
            width * height <= usize::MAX,
            buffer@.len() == width * height,
            target == masked_spec(old(buffer)@, width as int, height as int, radius),
            target.len() == width * height,
            forall|p: int| 0 <= p < y * width ==> buffer@[p] == target[p],
            forall|p: int| y * width <= p < buffer@.len() ==> buffer@[p] == old(buffer)@[p],
        decreases height - y,
    {
        let mut x: usize = 0;
        while x < width
            invariant
                0 < r,
                r == clamped_radius(radius, width as int, height as int),
                r <= width as int / 2,
                r <= height as int / 2,
                y < height,
                x <= width,
                width * height <= usize::MAX,
                buffer@.len() == width * height,
                target == masked_spec(old(buffer)@, width as int, height as int, radius),
                target.len() == width * height,
                forall|p: int| 0 <= p < y * width + x ==> buffer@[p] == target[p],
                forall|p: int|
                    y * width + x <= p < buffer@.len() ==> buffer@[p] == old(buffer)@[p],
            decreases width - x,
        {
            proof {
                assert(y * width + x < width * height) by (nonlinear_arith)
                    requires
                        x < width,
                        y < height,
                        0 <= x,
                        0 <= y,
                ;
            }
            let idx: usize = y * width + x;
            proof {
                lemma_cell(idx as int, x as int, y as int, width as int);
            }
            if masked_at(x, y, width, height, r) {
                if buffer[idx] == BACKGROUND_INDEX {
                    buffer.set(idx, TRANSPARENT_INDEX);
                }
            }
            x = x + 1;
        }
        y = y + 1;
        assert(y * width == (y - 1) * width + width) by (nonlinear_arith);
    }
    proof {
        vstd::arithmetic::mul::lemma_mul_is_commutative(height as int, width as int);
        assert(buffer@ =~= target);
    }
}

/// Masking is idempotent: applying the corner mask twice with the same radius
/// yields the same buffer as applying it once.
pub proof fn lemma_mask_idempotent(buf: Seq<u8>, w: int, h: int, radius: u32)
    ensures
        masked_spec(masked_spec(buf, w, h, radius), w, h, radius) == masked_spec(
            buf,
            w,
            h,
            radius,
        ),
{
    let once = masked_spec(buf, w, h, radius);
    let twice = masked_spec(once, w, h, radius);
    assert forall|p: int| 0 <= p < twice.len() implies twice[p] == once[p] by {
        let r = clamped_radius(radius, w, h);
        if outside_corner_arc(p % w, p / w, w, h, r) {
            assert(once[p] != BACKGROUND_INDEX);
        }
    }
    assert(twice =~= once);
}

/// Masking never touches drawn text: a pixel that does not hold the
/// background index keeps its exact value.
pub proof fn lemma_mask_preserves_text(buf: Seq<u8>, w: int, h: int, radius: u32, p: int)
    requires
        0 <= p < buf.len(),
        buf[p] != BACKGROUND_INDEX,
    ensures
        masked_spec(buf, w, h, radius)[p] == buf[p],
{
}

} // verus!
