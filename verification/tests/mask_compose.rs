use countdown_gif::compose::Bitmap;
use countdown_gif::compose::compose_frame;
use countdown_gif::mask::apply_corner_mask;
use countdown_gif::slots::Placement;

fn placement(x: i64, y: i64, width: usize, height: usize) -> Placement {
    Placement { x, y, width, height }
}

fn bitmap(width: usize, height: usize, coverage: Vec<u8>) -> Bitmap {
    assert_eq!(coverage.len(), width * height);
    Bitmap { width, height, coverage }
}

#[test]
fn mask_small_canvas_exact() {
    // 4x4 canvas, radius 2: only the middle 2x2 block survives as background.
    let mut buf = vec![1u8; 16];
    apply_corner_mask(&mut buf, 4, 4, 2);
    let expected = vec![
        0, 0, 0, 0,
        0, 1, 1, 0,
        0, 1, 1, 0,
        0, 0, 0, 0,
    ];
    assert_eq!(buf, expected);
}

#[test]
fn mask_keeps_pixels_on_the_arc() {
    // Radius 5 on a 10x10 canvas: the corner pixel (1, 2) sits at squared
    // distance (1-5)^2 + (2-5)^2 = 25 = r^2 from the inset center - on the
    // arc, not strictly outside it - so it keeps the background. Its
    // neighbor (0, 2) at squared distance 34 > 25 becomes transparent.
    let mut buf = vec![1u8; 100];
    apply_corner_mask(&mut buf, 10, 10, 5);
    assert_eq!(buf[2 * 10 + 1], 1);
    assert_eq!(buf[2 * 10], 0);
}

#[test]
fn mask_is_idempotent() {
    let mut once = vec![1u8; 8 * 6];
    once[9] = 5;
    once[20] = 17;
    let mut twice = once.clone();
    apply_corner_mask(&mut once, 8, 6, 3);
    apply_corner_mask(&mut twice, 8, 6, 3);
    apply_corner_mask(&mut twice, 8, 6, 3);
    assert_eq!(once, twice);
}

#[test]
fn mask_never_touches_text() {
    // Every pixel is a drawn-text index; the mask must change nothing.
    let mut buf = vec![5u8; 6 * 6];
    let orig = buf.clone();
    apply_corner_mask(&mut buf, 6, 6, 3);
    assert_eq!(buf, orig);
}

#[test]
fn mask_radius_zero_is_noop() {
    let mut buf = vec![1u8; 4 * 4];
    let orig = buf.clone();
    apply_corner_mask(&mut buf, 4, 4, 0);
    assert_eq!(buf, orig);
}

#[test]
fn mask_clamps_radius_to_half_canvas() {
    // Radius far above the canvas: clamped to min(w/2, h/2) = 2 on 4x4,
    // identical to the radius-2 mask.
    let mut big = vec![1u8; 16];
    let mut two = vec![1u8; 16];
    apply_corner_mask(&mut big, 4, 4, 1000);
    apply_corner_mask(&mut two, 4, 4, 2);
    assert_eq!(big, two);
}

#[test]
fn compose_levels_formula() {
    // One 2x1 glyph on a 4x1 canvas, centered at offset (4-2)/2 = 1.
    // Coverage 255 -> level 16 -> index 17; coverage 15 -> level 0 -> skipped.
    let template = vec![placement(0, 0, 2, 1)];
    let glyphs = vec![placement(0, 0, 2, 1)];
    let bitmaps = vec![bitmap(2, 1, vec![255, 15])];
    let canvas = compose_frame(4, 1, &template, &glyphs, &bitmaps, 16);
    assert_eq!(canvas, vec![1, 17, 1, 1]);
}

#[test]
fn compose_level_buckets() {
    // Coverage 16 -> 16*16/255 = 1 -> index 2; coverage 128 -> 128*16/255 = 8
    // -> index 9.
    let template = vec![placement(0, 0, 2, 1)];
    let glyphs = vec![placement(0, 0, 2, 1)];
    let bitmaps = vec![bitmap(2, 1, vec![16, 128])];
    let canvas = compose_frame(2, 1, &template, &glyphs, &bitmaps, 16);
    assert_eq!(canvas, vec![2, 9]);
}

#[test]
fn compose_glyph_count_mismatch_is_blank() {
    // Template has 2 glyphs, the malformed real string only 1: the frame must
    // equal the freshly background-filled canvas, with nothing drawn.
    let template = vec![placement(0, 0, 2, 1), placement(3, 0, 2, 1)];
    let glyphs = vec![placement(0, 0, 2, 1)];
    let bitmaps = vec![bitmap(2, 1, vec![255, 255])];
    let canvas = compose_frame(6, 1, &template, &glyphs, &bitmaps, 16);
    assert_eq!(canvas, vec![1u8; 6]);
}

#[test]
fn compose_empty_string_is_blank() {
    let template: Vec<Placement> = Vec::new();
    let glyphs: Vec<Placement> = Vec::new();
    let bitmaps: Vec<Bitmap> = Vec::new();
    let canvas = compose_frame(4, 2, &template, &glyphs, &bitmaps, 16);
    assert_eq!(canvas, vec![1u8; 8]);
}

#[test]
fn compose_template_without_area_is_blank() {
    let template = vec![placement(0, 0, 0, 0)];
    let glyphs = vec![placement(0, 0, 2, 1)];
    let bitmaps = vec![bitmap(2, 1, vec![255, 255])];
    let canvas = compose_frame(4, 1, &template, &glyphs, &bitmaps, 16);
    assert_eq!(canvas, vec![1u8; 4]);
}

#[test]
fn compose_zero_area_glyph_skipped() {
    // The real glyph at slot 1 is non-printing (zero size): nothing is drawn
    // for it even though a bitmap is supplied.
    let template = vec![placement(0, 0, 1, 1), placement(1, 0, 1, 1)];
    let glyphs = vec![placement(0, 0, 1, 1), placement(1, 0, 0, 0)];
    let bitmaps = vec![bitmap(1, 1, vec![255]), bitmap(1, 1, vec![255])];
    let canvas = compose_frame(2, 1, &template, &glyphs, &bitmaps, 16);
    assert_eq!(canvas, vec![17, 1]);
}

#[test]
fn compose_clips_off_canvas_pixels() {
    // Template box is wider than the canvas: centering offset is negative and
    // the overhanging pixels are silently dropped.
    let template = vec![placement(0, 0, 4, 1)];
    let glyphs = vec![placement(0, 0, 4, 1)];
    let bitmaps = vec![bitmap(4, 1, vec![255, 255, 255, 255])];
    let canvas = compose_frame(2, 1, &template, &glyphs, &bitmaps, 16);
    assert_eq!(canvas, vec![17, 17]);
}

#[test]
fn separator_slot_is_jitter_free() {
    // Same template, two "different strings": the real layouts differ in
    // their own coordinates and the digit bitmaps differ, but the separator
    // slot (index 1) shares its bitmap. Its pixels land identically.
    let template = vec![
        placement(0, 0, 2, 1),
        placement(2, 0, 1, 1),
        placement(3, 0, 2, 1),
    ];
    let g1 = vec![
        placement(0, 0, 2, 1),
        placement(2, 0, 1, 1),
        placement(3, 0, 2, 1),
    ];
    // A layout of a narrower digit string: different positions and sizes,
    // same zero-area pattern.
    let g2 = vec![
        placement(10, 5, 1, 1),
        placement(12, 5, 1, 1),
        placement(13, 5, 1, 1),
    ];
    let sep = vec![255u8];
    let bm1 = vec![
        bitmap(2, 1, vec![255, 255]),
        bitmap(1, 1, sep.clone()),
        bitmap(2, 1, vec![255, 255]),
    ];
    let bm2 = vec![
        bitmap(1, 1, vec![128]),
        bitmap(1, 1, sep),
        bitmap(1, 1, vec![128]),
    ];
    let c1 = compose_frame(9, 1, &template, &g1, &bm1, 16);
    let c2 = compose_frame(9, 1, &template, &g2, &bm2, 16);
    // Template box spans 0..5, centering offset (9-5)/2 = 2; the separator's
    // slot offset is 2, so it lands at x = 4 in both renders.
    assert_eq!(c1[4], 17);
    assert_eq!(c2[4], 17);
    // And with identical bitmaps everywhere, whole canvases coincide whatever
    // the real layout's coordinates were.
    let c3 = compose_frame(9, 1, &template, &g1, &bm1, 16);
    let c4 = compose_frame(9, 1, &template, &g2, &bm1, 16);
    assert_eq!(c3, c4);
}
