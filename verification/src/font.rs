//! Trusted boundary to the fontdue text engine: string layout and glyph
//! rasterization over an already-parsed font. Everything returned to the
//! verified pipeline is reduced to plain values (whole-pixel placements and
//! coverage bytes). Parsing the font asset itself stays at the service edge,
//! since the parser may abort on arbitrary bytes.

use vstd::prelude::*;
use fontdue::layout::CoordinateSystem;
use fontdue::layout::Layout;
use fontdue::layout::LayoutSettings;
use fontdue::layout::TextStyle;
use crate::compose::Bitmap;
use crate::slots::Placement;

verus! {

#[verifier::external_type_specification]
#[verifier::external_body]
pub struct ExFont(fontdue::Font);

/// The rendering context: the font asset, parsed once at service start and
/// passed by reference into every render call. The embedding service
/// constructs it from an already-parsed font: font loading and parsing happen
/// at the service edge, outside the verified core, because the parser may
/// abort on arbitrary bytes and the core's functions must never panic.
pub struct RenderContext {
    pub font: fontdue::Font,
}

/// One glyph of a laid-out string: the character that produced it and its
/// whole-pixel placement on the layout's top-down canvas.
#[derive(Clone, Copy, PartialEq, Eq, Structural, Debug)]
pub struct LaidGlyph {
    pub ch: char,
    pub placement: Placement,
}

/// The glyph sequence the layout engine produces for a string at a pixel
/// size: a deterministic function of the font, the characters and the size
/// alone, since every layout call starts from a fresh layout state.
pub uninterp spec fn layout_of(font: fontdue::Font, text: Seq<char>, px: u16) -> Seq<LaidGlyph>;

/// The coverage bitmap the rasterizer produces for one character at a pixel
/// size, as (width, height, coverage bytes): a deterministic function of the
/// font, the character and the size alone.
pub uninterp spec fn raster_of(font: fontdue::Font, ch: char, px: u16) -> (usize, usize, Seq<u8>);

/// Relies on fontdue's Layout in PositiveYDown coordinates (increasing y is
/// downward, matching the raster canvas): laying out a string on a fresh
/// layout yields exactly one glyph per character, in string order, with
/// whole-pixel bounding boxes (the engine floors them) and zero-size boxes
/// for non-printing characters. Each call builds a fresh layout, so no cursor
/// state leaks from one tick's string to the next.
#[verifier::external_body]
pub fn layout_text(font: &fontdue::Font, text: &str, px: u16) -> (r: Vec<LaidGlyph>)
    ensures
        r@ == layout_of(*font, text@, px),
        r@.len() == text@.len(),
        forall|i: int| 0 <= i < r@.len() ==> r@[i].ch == text@[i],
{
    let mut layout = Layout::new(CoordinateSystem::PositiveYDown);
    layout.reset(&LayoutSettings::default());
    layout.append(&[font], &TextStyle::new(text, px.into(), 0));
    layout.glyphs().iter().map(
        |g| LaidGlyph {
            ch: g.parent,
            placement: Placement { x: g.x as i64, y: g.y as i64, width: g.width, height: g.height },
        },
    ).collect()
}

/// Relies on fontdue::Font::rasterize: the coverage bitmap of one character
/// at the given pixel size, holding exactly one byte per bitmap pixel, row
/// major from the bitmap's top-left corner. This is the same rasterization
/// the layout's glyph keys name, since both go through the font's glyph index
/// for the character.
#[verifier::external_body]
pub fn rasterize_glyph(font: &fontdue::Font, ch: char, px: u16) -> (r: Bitmap)
    ensures
        r.rec() == raster_of(*font, ch, px),
        r.wf(),
{
    let (metrics, coverage) = font.rasterize(ch, px.into());
    Bitmap { width: metrics.width, height: metrics.height, coverage }
}

} // verus!
