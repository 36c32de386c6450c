//! Construction of the fixed indexed color table shared by every frame.

use vstd::prelude::*;

verus! {

/// Grayscale intensity of gradient step `k` out of `denom` steps:
/// `255 * (1 - k / denom)`, rounded half-up to the nearest integer.
/// `floor((2 * 255 * (denom - k) + denom) / (2 * denom))` is exactly that
/// rounding, written over integers.
pub open spec fn gray_level(k: int, denom: int) -> int {
    (510 * (denom - k) + denom) / (2 * denom)
}

/// Byte `i` of the palette built for `levels` gradient steps.
///
/// With transparency, entry 0 is a black transparent placeholder, entry 1 the
/// solid white background, and entries `2..levels + 2` darken in `levels + 1`
/// denominator steps. Without transparency, entry 0 is the white background
/// and entries `1..levels + 1` darken in `levels` denominator steps.
pub open spec fn palette_byte(levels: u8, with_transparency: bool, i: int) -> u8 {
    let e = i / 3;
    if with_transparency {
        if e == 0 {
            0
        } else if e == 1 {
            255
        } else {
            gray_level(e - 1, levels + 1) as u8
        }
    } else {
        if e == 0 {
            255
        } else {
            gray_level(e, levels as int) as u8
        }
    }
}

/// The whole palette as a flat `[r, g, b, r, g, b, ...]` byte sequence.
pub open spec fn palette_spec(levels: u8, with_transparency: bool) -> Seq<u8> {
    let entries: int = if with_transparency { levels + 2 } else { levels + 1 };
    Seq::new((3 * entries) as nat, |i: int| palette_byte(levels, with_transparency, i))
}

/// Number of palette entries (color triples) for a given configuration.
pub open spec fn palette_len(levels: u8, with_transparency: bool) -> int {
    if with_transparency {
        levels + 2
    } else {
        levels + 1
    }
}

proof fn lemma_gray_level_range(k: int, denom: int)
    requires
        1 <= k <= denom <= 510,
    ensures
        0 <= gray_level(k, denom) <= 255,
{
    let num = 510 * (denom - k) + denom;
    assert(0 <= num <= 510 * (denom - 1) + denom);
    vstd::arithmetic::div_mod::lemma_div_is_ordered(0, num, 2 * denom);
    vstd::arithmetic::div_mod::lemma_div_is_ordered(num, 511 * denom - 510, 2 * denom);
    assert((511 * denom - 510) / (2 * denom) <= 255) by {
        vstd::arithmetic::div_mod::lemma_div_is_ordered(511 * denom - 510, 512 * denom - 2 * denom, 2 * denom);
        assert(512 * denom - 2 * denom == 255 * (2 * denom) + 0 * denom);
        vstd::arithmetic::div_mod::lemma_div_multiples_vanish(255, 2 * denom);
    }
}

proof fn lemma_div3(e: int, i: int)
    requires
        3 * e <= i < 3 * (e + 1),
    ensures
        i / 3 == e,
{
    vstd::arithmetic::div_mod::lemma_div_multiples_vanish_fancy(e, i - 3 * e, 3);
}

/// Builds the global color table: one white background entry, `levels`
/// monotonically darkening grayscale anti-aliasing entries, and - when
/// transparency is enabled - a leading transparent placeholder entry.
pub fn build_grayscale_palette(levels: u8, with_transparency: bool) -> (palette: Vec<u8>)
    requires
        1 <= levels,
    ensures
        palette@ == palette_spec(levels, with_transparency),
        palette@.len() == 3 * palette_len(levels, with_transparency),
{
    let mut palette: Vec<u8> = Vec::new();
    if with_transparency {
        palette.push(0);
        palette.push(0);
        palette.push(0);
    }
    palette.push(255);
    palette.push(255);
    palette.push(255);
    let denom: u32 = if with_transparency { levels as u32 + 1 } else { levels as u32 };
    let head: u32 = if with_transparency { 2 } else { 1 };
    let mut k: u32 = 1;
    while k <= levels as u32
        invariant
            1 <= levels,
            denom == if with_transparency { levels + 1int } else { levels as int },
            head == if with_transparency { 2int } else { 1int },
            1 <= k <= levels + 1,
            palette@.len() == 3 * (head + k - 1),
            forall|i: int|
                0 <= i < palette@.len() ==> palette@[i] == palette_byte(
                    levels,
                    with_transparency,
                    i,
                ),
        decreases levels as int + 1 - k,
    {
        proof {
            lemma_gray_level_range(k as int, denom as int);
        }
        let value: u32 = (510 * (denom - k) + denom) / (2 * denom);
        let value: u8 = value as u8;
        assert(value == gray_level(k as int, denom as int));
        palette.push(value);
        palette.push(value);
        palette.push(value);
        proof {
            let e: int = head + k - 1;
            assert forall|i: int| 0 <= i < palette@.len() implies palette@[i] == palette_byte(
                levels,
                with_transparency,
                i,
            ) by {
                if i >= 3 * e {
                    lemma_div3(e, i);
                }
            }
        }
        k = k + 1;
    }
    proof {
        assert(palette@ =~= palette_spec(levels, with_transparency));
    }
    palette
}

/// The gradient entries never get brighter as the palette index grows: for
/// gradient steps `k1 <= k2` (each between 1 and the number of steps), the
/// intensity at `k1` is at least the intensity at `k2`. Together with
/// `build_grayscale_palette`'s postcondition - length `levels + 2`, entry 0
/// fixed to black, entry 1 fixed to white - this pins down the palette shape.
pub proof fn lemma_palette_gradient_monotone(denom: int, k1: int, k2: int)
    requires
        1 <= k1 <= k2 <= denom,
    ensures
        gray_level(k1, denom) >= gray_level(k2, denom),
{
    vstd::arithmetic::div_mod::lemma_div_is_ordered(
        510 * (denom - k2) + denom,
        510 * (denom - k1) + denom,
        2 * denom,
    );
}

/// The transparency palette's gradient region darkens with the index: for
/// entries `2 <= e1 <= e2 <= levels + 1` the brightness (each of the three
/// identical channel bytes) at `e1` is at least the brightness at `e2`.
pub proof fn lemma_palette_entries_darken(levels: u8, e1: int, e2: int)
    requires
        1 <= levels,
        2 <= e1 <= e2 <= levels + 1,
    ensures
        palette_spec(levels, true)[3 * e1] >= palette_spec(levels, true)[3 * e2],
{
    lemma_div3(e1, 3 * e1);
    lemma_div3(e2, 3 * e2);
    lemma_gray_level_range(e1 - 1, levels + 1);
    lemma_gray_level_range(e2 - 1, levels + 1);
    lemma_palette_gradient_monotone(levels + 1, e1 - 1, e2 - 1);
}

} // verus!
