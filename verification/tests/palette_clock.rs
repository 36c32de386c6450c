use countdown_gif::clock::format_time;
use countdown_gif::clock::time_components;
use countdown_gif::palette::build_grayscale_palette;

#[test]
fn palette_transparent_shape() {
    let p = build_grayscale_palette(16, true);
    assert_eq!(p.len(), 3 * 18);
    assert_eq!(&p[0..3], &[0, 0, 0]);
    assert_eq!(&p[3..6], &[255, 255, 255]);
    // 255 * (1 - 1/17) = 240 exactly.
    assert_eq!(&p[6..9], &[240, 240, 240]);
    // 255 * (1 - 16/17) = 15 exactly.
    assert_eq!(&p[51..54], &[15, 15, 15]);
}

#[test]
fn palette_gradient_monotone() {
    let p = build_grayscale_palette(16, true);
    for k in 2..17 {
        assert!(p[3 * k] >= p[3 * (k + 1)]);
    }
    let q = build_grayscale_palette(200, true);
    for k in 1..201 {
        assert!(q[3 * k] >= q[3 * (k + 1)]);
    }
}

#[test]
fn palette_entries_are_gray_triples() {
    let p = build_grayscale_palette(16, true);
    for e in 0..18 {
        assert_eq!(p[3 * e], p[3 * e + 1]);
        assert_eq!(p[3 * e], p[3 * e + 2]);
    }
}

#[test]
fn palette_without_transparency() {
    let p = build_grayscale_palette(4, false);
    assert_eq!(p.len(), 3 * 5);
    assert_eq!(&p[0..3], &[255, 255, 255]);
    // 255 * (1 - k/4) for k = 1..4, rounded half-up: 191.25, 127.5, 63.75, 0.
    assert_eq!(p[3], 191);
    assert_eq!(p[6], 128);
    assert_eq!(p[9], 64);
    assert_eq!(p[12], 0);
}

#[test]
fn palette_single_level_variant() {
    // levels = 1 is the anti-aliasing-disabled variant: one gradient entry at
    // 255 * (1 - 1/2) = 127.5, rounded half-up to 128.
    let p = build_grayscale_palette(1, true);
    assert_eq!(p.len(), 9);
    assert_eq!(&p[6..9], &[128, 128, 128]);
}

#[test]
fn time_components_of_90000() {
    // 90000 s: 90000 / 3600 % 24 = 1 hour, 0 minutes, 0 seconds.
    assert_eq!(time_components(90000), (1, 0, 0));
}

#[test]
fn time_components_wraps_as_wall_clock() {
    assert_eq!(time_components(86399), (23, 59, 59));
    assert_eq!(time_components(86400), (0, 0, 0));
    assert_eq!(time_components(59), (0, 0, 59));
}

#[test]
fn format_time_zero_pads() {
    assert_eq!(format_time(1, 2, 3), "01:02:03");
    assert_eq!(format_time(23, 59, 59), "23:59:59");
    assert_eq!(format_time(0, 0, 0), "00:00:00");
}
