//! Frame sequencing and the render entry point: one countdown tick per
//! frame, each composited and corner-masked, all fed to the GIF assembler.

use vstd::prelude::*;
use crate::BACKGROUND_INDEX;
use crate::TRANSPARENT_INDEX;
use crate::RenderError;
use crate::clock::format_time;
use crate::clock::hours_of;
use crate::clock::minutes_of;
use crate::clock::seconds_of;
use crate::clock::time_components;
use crate::clock::time_string;
use crate::compose::Bitmap;
use crate::compose::bg_canvas;
use crate::compose::bitmap_recs;
use crate::compose::compose_frame;
use crate::compose::compose_spec;
use crate::compose::lemma_compose_range;
use crate::encode::Frame;
use crate::encode::encode_gif;
use crate::encode::frame_records;
use crate::encode::gif_stream_bytes;
use crate::font::LaidGlyph;
use crate::font::RenderContext;
use crate::font::layout_of;
use crate::font::layout_text;
use crate::font::raster_of;
use crate::font::rasterize_glyph;
use crate::mask::apply_corner_mask;
use crate::mask::masked_spec;
use crate::palette::build_grayscale_palette;
use crate::palette::palette_spec;
use crate::slots::Placement;
use crate::slots::has_area;
use crate::slots::nonzero;
use crate::slots::template_geometry;

verus! {

/// The fixed-width template whose slot offsets anchor every frame's glyphs:
/// same character classes (digit, digit, separator, ...) as every real time
/// string, with the widest digit in every slot.
pub const TEMPLATE_TIME: &'static str = "88:88:88";

/// Every pixel of the buffer is the transparent index, the background index,
/// or one of the `levels` gradient shades - always a valid index into the
/// render's palette of `levels + 2` entries.
pub open spec fn frame_pixels_valid(buf: Seq<u8>, levels: u8) -> bool {
    forall|p: int| 0 <= p < buf.len() ==> buf[p] <= BACKGROUND_INDEX + levels
}

/// The placements of a laid-out glyph sequence, in order.
pub open spec fn placements(l: Seq<LaidGlyph>) -> Seq<Placement> {
    l.map_values(|g: LaidGlyph| g.placement)
}

/// The real string renders only when it has glyphs, matches the template's
/// glyph count, and the template has a glyph with positive area; otherwise
/// the frame aborts to its background-only state.
pub open spec fn renderable_spec(tl: Seq<LaidGlyph>, gl: Seq<LaidGlyph>) -> bool {
    gl.len() > 0 && tl.len() == gl.len() && has_area(placements(tl))
}

/// The coverage bitmap record composited at each slot: the rasterization of
/// the real glyph's character where the slot is drawn, and an empty bitmap
/// where the slot is skipped or the frame aborts (no rasterization call is
/// made for those).
pub open spec fn slot_bitmaps(
    font: fontdue::Font,
    tl: Seq<LaidGlyph>,
    gl: Seq<LaidGlyph>,
    px: u16,
) -> Seq<(usize, usize, Seq<u8>)> {
    Seq::new(
        gl.len(),
        |i: int|
            if renderable_spec(tl, gl) && nonzero(gl[i].placement) && nonzero(tl[i].placement) {
                raster_of(font, gl[i].ch, px)
            } else {
                (0usize, 0usize, Seq::<u8>::empty())
            },
    )
}

/// One finished frame's pixels. A layout anomaly - an empty real string, a
/// glyph-count mismatch with the template, or a template without area -
/// leaves the frame exactly as the freshly background-filled canvas (the
/// corner mask is not applied to an aborted frame); otherwise the frame is
/// the composited canvas with the corner mask applied.
pub open spec fn rendered_frame(
    w: int,
    h: int,
    t: Seq<Placement>,
    g: Seq<Placement>,
    bm: Seq<(usize, usize, Seq<u8>)>,
    levels: u8,
    radius: u32,
) -> Seq<u8> {
    if g.len() == 0 || t.len() != g.len() || !has_area(t) {
        bg_canvas(w, h)
    } else {
        masked_spec(compose_spec(w, h, t, g, bm, levels), w, h, radius)
    }
}

/// The pixels of the frame showing one time reading: the template and the
/// zero-padded `HH:MM:SS` string laid out at the font size, composited into
/// the template's slots and corner-masked. A function of the font, the time
/// components and the configuration alone: rendering is deterministic, and
/// independent of any previous canvas contents.
pub open spec fn time_frame(
    font: fontdue::Font,
    h: int,
    m: int,
    s: int,
    width: int,
    height: int,
    px: u16,
    levels: u8,
    radius: u32,
) -> Seq<u8> {
    let tl = layout_of(font, TEMPLATE_TIME@, px);
    let gl = layout_of(font, time_string(h, m, s), px);
    rendered_frame(
        width,
        height,
        placements(tl),
        placements(gl),
        slot_bitmaps(font, tl, gl, px),
        levels,
        radius,
    )
}

/// A glyph-count mismatch between template and real string yields a frame
/// equal to the freshly background-filled canvas: no partial glyphs, and no
/// corner masking of an aborted frame.
pub proof fn lemma_mismatch_frame_is_blank(
    w: int,
    h: int,
    t: Seq<Placement>,
    g: Seq<Placement>,
    bm: Seq<(usize, usize, Seq<u8>)>,
    levels: u8,
    radius: u32,
)
    requires
        t.len() != g.len(),
    ensures
        rendered_frame(w, h, t, g, bm, levels, radius) == bg_canvas(w, h),
{
}

/// Frame-level jitter-freedom: a finished frame does not depend on the real
/// glyphs' own layout coordinates, only on which slots have area, on the
/// template's geometry, on the bitmaps, and on the mask. Rendering two
/// different strings whose layouts agree slot-by-slot in having area, with
/// the same bitmap at each slot, yields pixel-identical frames.
pub proof fn lemma_no_jitter_frame(
    w: int,
    h: int,
    t: Seq<Placement>,
    g1: Seq<Placement>,
    g2: Seq<Placement>,
    bm: Seq<(usize, usize, Seq<u8>)>,
    levels: u8,
    radius: u32,
)
    requires
        g1.len() == g2.len(),
        forall|i: int| 0 <= i < g1.len() ==> (nonzero(g1[i]) <==> nonzero(g2[i])),
    ensures
        rendered_frame(w, h, t, g1, bm, levels, radius) == rendered_frame(
            w,
            h,
            t,
            g2,
            bm,
            levels,
            radius,
        ),
{
    crate::compose::lemma_no_jitter(w, h, t, g1, g2, bm, levels);
}

fn placements_of(laid: &Vec<LaidGlyph>) -> (r: Vec<Placement>)
    ensures
        r@ == placements(laid@),
        r@.len() == laid@.len(),
        forall|i: int| 0 <= i < r@.len() ==> r@[i] == laid@[i].placement,
{
    let mut r: Vec<Placement> = Vec::new();
    let mut i: usize = 0;
    while i < laid.len()
        invariant
            i <= laid@.len(),
            r@.len() == i,
            forall|j: int| 0 <= j < i ==> r@[j] == laid@[j].placement,
        decreases laid@.len() - i,
    {
        r.push(laid[i].placement);
        i = i + 1;
    }
    proof {
        assert(r@ =~= placements(laid@));
    }
    r
}

/// Renders one time reading onto a fresh canvas: resets it to the background,
/// lays out the real string and the template, composites the glyphs into the
/// template's slots, and applies the corner mask to the rendered frame.
/// Layout anomalies (count mismatch, template without area) abort the frame
/// before any glyph is rasterized, leaving the canvas background-only and
/// unmasked; they never produce a partial render. The result is exactly
/// `time_frame` of the context's font and the given components: deterministic.
pub fn draw_number(
    ctx: &RenderContext,
    width: usize,
    height: usize,
    hours: u32,
    minutes: u32,
    seconds: u32,
    font_size: u16,
    levels: u8,
    corner_radius: u32,
) -> (r: Vec<u8>)
    requires
        width * height <= usize::MAX,
        1 <= levels <= 254,
        hours < 100,
        minutes < 100,
        seconds < 100,
    ensures
        r@ == time_frame(
            ctx.font,
            hours as int,
            minutes as int,
            seconds as int,
            width as int,
            height as int,
            font_size,
            levels,
            corner_radius,
        ),
        r@.len() == width * height,
        frame_pixels_valid(r@, levels),
{
    let time_str = format_time(hours, minutes, seconds);
    let glyphs_laid = layout_text(&ctx.font, time_str.as_str(), font_size);
    let template_laid = layout_text(&ctx.font, TEMPLATE_TIME, font_size);
    let ghost gl = layout_of(ctx.font, time_string(hours as int, minutes as int, seconds as int), font_size);
    let ghost tl = layout_of(ctx.font, TEMPLATE_TIME@, font_size);
    proof {
        assert(glyphs_laid@ == gl);
        assert(template_laid@ == tl);
    }
    let glyphs = placements_of(&glyphs_laid);
    let template = placements_of(&template_laid);
    let renderable: bool = glyphs.len() > 0 && template.len() == glyphs.len()
        && template_geometry(&template).is_some();
    proof {
        assert(renderable == renderable_spec(tl, gl));
    }
    let mut bitmaps: Vec<Bitmap> = Vec::new();
    let mut i: usize = 0;
    while i < glyphs.len()
        invariant
            i <= glyphs@.len(),
            gl == layout_of(
                ctx.font,
                time_string(hours as int, minutes as int, seconds as int),
                font_size,
            ),
            tl == layout_of(ctx.font, TEMPLATE_TIME@, font_size),
            glyphs_laid@ == gl,
            template_laid@ == tl,
            glyphs@ == placements(gl),
            template@ == placements(tl),
            glyphs@.len() == gl.len(),
            renderable == renderable_spec(tl, gl),
            bitmaps@.len() == i,
            forall|j: int| 0 <= j < i ==> bitmaps@[j].wf(),
            forall|j: int|
                0 <= j < i ==> bitmaps@[j].rec() == slot_bitmaps(ctx.font, tl, gl, font_size)[j],
        decreases glyphs@.len() - i,
    {
        let g = glyphs[i];
        let drawable: bool = if renderable && g.width > 0 && g.height > 0 {
            let t = template[i];
            t.width > 0 && t.height > 0
        } else {
            false
        };
        if drawable {
            bitmaps.push(rasterize_glyph(&ctx.font, glyphs_laid[i].ch, font_size));
        } else {
            let empty = Bitmap::empty();
            proof {
                assert(empty.coverage@ =~= Seq::<u8>::empty());
            }
            bitmaps.push(empty);
        }
        i = i + 1;
    }
    proof {
        assert(bitmap_recs(bitmaps@) =~= slot_bitmaps(ctx.font, tl, gl, font_size));
    }
    let mut canvas = compose_frame(width, height, &template, &glyphs, &bitmaps, levels);
    proof {
        lemma_compose_range(
            width as int,
            height as int,
            template@,
            glyphs@,
            bitmap_recs(bitmaps@),
            levels,
        );
    }
    if renderable {
        let ghost composed = canvas@;
        apply_corner_mask(&mut canvas, width, height, corner_radius);
        proof {
            assert(forall|p: int|
                0 <= p < canvas@.len() ==> canvas@[p] == TRANSPARENT_INDEX || canvas@[p]
                    == composed[p]);
        }
    }
    proof {
        assert(canvas@ == time_frame(
            ctx.font,
            hours as int,
            minutes as int,
            seconds as int,
            width as int,
            height as int,
            font_size,
            levels,
            corner_radius,
        ));
    }
    canvas
}

/// Iterates the 61 countdown ticks. Tick `i` shows the wall-clock reading of
/// `start_timestamp - i` (the sequence counts backward through the past, one
/// second per frame), each frame carrying a uniform delay of 100 centiseconds
/// and the transparent index; frame `i`'s pixels are exactly the rendered
/// time frame of tick `i`.
pub fn generate_frames(
    ctx: &RenderContext,
    start_timestamp: u64,
    width: usize,
    height: usize,
    font_size: u16,
    levels: u8,
    corner_radius: u32,
) -> (frames: Vec<Frame>)
    requires
        start_timestamp >= 60,
        width * height <= usize::MAX,
        width <= u16::MAX,
        height <= u16::MAX,
        1 <= levels <= 254,
    ensures
        frames@.len() == 61,
        forall|i: int|
            #![trigger frames@[i]]
            0 <= i < 61 ==> {
                &&& frames@[i].wf()
                &&& frames@[i].width == width
                &&& frames@[i].height == height
                &&& frames@[i].delay == 100
                &&& frames@[i].transparent == Some(TRANSPARENT_INDEX)
                &&& frame_pixels_valid(frames@[i].buffer@, levels)
                &&& frames@[i].buffer@ == time_frame(
                    ctx.font,
                    hours_of(start_timestamp - i),
                    minutes_of(start_timestamp - i),
                    seconds_of(start_timestamp - i),
                    width as int,
                    height as int,
                    font_size,
                    levels,
                    corner_radius,
                )
            },
{
    let mut frames: Vec<Frame> = Vec::new();
    let mut i: u64 = 0;
    while i < 61
        invariant
            i <= 61,
            start_timestamp >= 60,
            width * height <= usize::MAX,
            width <= u16::MAX,
            height <= u16::MAX,
            1 <= levels <= 254,
            frames@.len() == i,
            forall|j: int|
                #![trigger frames@[j]]
                0 <= j < i ==> {
                    &&& frames@[j].wf()
                    &&& frames@[j].width == width
                    &&& frames@[j].height == height
                    &&& frames@[j].delay == 100
                    &&& frames@[j].transparent == Some(TRANSPARENT_INDEX)
                    &&& frame_pixels_valid(frames@[j].buffer@, levels)
                    &&& frames@[j].buffer@ == time_frame(
                        ctx.font,
                        hours_of(start_timestamp - j),
                        minutes_of(start_timestamp - j),
                        seconds_of(start_timestamp - j),
                        width as int,
                        height as int,
                        font_size,
                        levels,
                        corner_radius,
                    )
                },
        decreases 61 - i,
    {
        let total_seconds: u64 = start_timestamp - i;
        let (hours, minutes, seconds) = time_components(total_seconds);
        let buffer = draw_number(
            ctx,
            width,
            height,
            hours,
            minutes,
            seconds,
            font_size,
            levels,
            corner_radius,
        );
        frames.push(
            Frame {
                width: width as u16,
                height: height as u16,
                buffer,
                delay: 100,
                transparent: Some(TRANSPARENT_INDEX),
            },
        );
        i = i + 1;
    }
    frames
}

/// The frame records of the countdown anchored at a timestamp: 61 records in
/// tick order, tick `i` carrying the rendered time frame of `timestamp - i`,
/// full-canvas, with a delay of 100 centiseconds and the transparent index.
pub open spec fn countdown_records(
    font: fontdue::Font,
    timestamp: u64,
    width: u16,
    height: u16,
    px: u16,
    levels: u8,
    radius: u32,
) -> Seq<(u16, u16, Seq<u8>, u16, Option<u8>)> {
    Seq::new(
        61,
        |i: int|
            (
                width,
                height,
                time_frame(
                    font,
                    hours_of(timestamp - i),
                    minutes_of(timestamp - i),
                    seconds_of(timestamp - i),
                    width as int,
                    height as int,
                    px,
                    levels,
                    radius,
                ),
                100u16,
                Some(TRANSPARENT_INDEX),
            ),
    )
}

/// Renders the whole countdown GIF for a timestamp: builds the palette once,
/// generates the 61 frames, and assembles the byte stream with an infinite
/// loop directive. On success the bytes are exactly the container's encoding
/// of the canvas-sized screen, the palette supplied once as the global color
/// table, the loop-forever extension, and the 61 tick frames in order:
/// byte-identical on every call with the same font, timestamp and
/// configuration. Encoder failures are fatal for the entire render - no
/// partial GIF is returned.
pub fn generate_countdown_gif(
    ctx: &RenderContext,
    current_timestamp: u64,
    width: usize,
    height: usize,
    font_size: u16,
    levels: u8,
    corner_radius: u32,
) -> (r: Result<Vec<u8>, RenderError>)
    requires
        current_timestamp >= 60,
        width * height <= usize::MAX,
        width <= u16::MAX,
        height <= u16::MAX,
        1 <= levels <= 254,
    ensures
        r matches Ok(v) ==> v@ == gif_stream_bytes(
            width as u16,
            height as u16,
            palette_spec(levels, true),
            true,
            countdown_records(
                ctx.font,
                current_timestamp,
                width as u16,
                height as u16,
                font_size,
                levels,
                corner_radius,
            ),
        ),
        r is Err ==> r->Err_0 == RenderError::Encoding,
{
    let palette = build_grayscale_palette(levels, true);
    let frames = generate_frames(
        ctx,
        current_timestamp,
        width,
        height,
        font_size,
        levels,
        corner_radius,
    );
    proof {
        assert(frame_records(frames@) =~= countdown_records(
            ctx.font,
            current_timestamp,
            width as u16,
            height as u16,
            font_size,
            levels,
            corner_radius,
        ));
        vstd::arithmetic::div_mod::lemma_div_multiples_vanish(levels + 2, 3);
        assert(palette@.len() / 3 == levels + 2);
    }
    encode_gif(width as u16, height as u16, &palette, &frames)
}

} // verus!
