use countdown_gif::RenderError;
use countdown_gif::compose::Bitmap;
use countdown_gif::compose::compose_frame;
use countdown_gif::encode::Frame;
use countdown_gif::encode::encode_gif;
use countdown_gif::mask::apply_corner_mask;
use countdown_gif::palette::build_grayscale_palette;

fn decode_all(bytes: &[u8]) -> (gif::Decoder<std::io::Cursor<&[u8]>>, Vec<gif::Frame<'static>>) {
    let mut options = gif::DecodeOptions::new();
    options.set_color_output(gif::ColorOutput::Indexed);
    let mut decoder = options.read_info(std::io::Cursor::new(bytes)).unwrap();
    let mut frames = Vec::new();
    while let Some(frame) = decoder.read_next_frame().unwrap() {
        frames.push(frame.clone());
    }
    (decoder, frames)
}

#[test]
fn composited_buffer_round_trips_through_gif() {
    // Composite a small glyph, mask a corner, encode, then decode with the
    // container's own reader: every palette index must come back unchanged.
    let palette = build_grayscale_palette(16, true);
    let template = vec![countdown_gif::slots::Placement { x: 0, y: 0, width: 2, height: 2 }];
    let glyphs = template.clone();
    let bitmaps = vec![Bitmap { width: 2, height: 2, coverage: vec![255, 16, 128, 0] }];
    let mut buffer = compose_frame(6, 4, &template, &glyphs, &bitmaps, 16);
    apply_corner_mask(&mut buffer, 6, 4, 1);
    let frame = Frame {
        width: 6,
        height: 4,
        buffer: buffer.clone(),
        delay: 100,
        transparent: Some(0),
    };
    let bytes = encode_gif(6, 4, &palette, &vec![frame]).unwrap();

    let (decoder, frames) = decode_all(&bytes);
    assert_eq!(frames.len(), 1);
    assert_eq!(frames[0].width, 6);
    assert_eq!(frames[0].height, 4);
    assert_eq!(frames[0].delay, 100);
    assert_eq!(frames[0].transparent, Some(0));
    assert_eq!(frames[0].buffer.as_ref(), buffer.as_slice());
    assert_eq!(decoder.repeat(), gif::Repeat::Infinite);
    // The global color table comes back padded to a power-of-two entry count;
    // its prefix is the palette that was supplied.
    let global = decoder.global_palette().unwrap();
    assert!(global.len() >= palette.len());
    assert_eq!(&global[..palette.len()], palette.as_slice());
}

#[test]
fn frames_come_back_in_supplied_order() {
    let palette = build_grayscale_palette(16, true);
    let mut frames_in = Vec::new();
    for k in 0..3u8 {
        frames_in.push(Frame {
            width: 2,
            height: 2,
            buffer: vec![1 + k; 4],
            delay: 100,
            transparent: Some(0),
        });
    }
    let bytes = encode_gif(2, 2, &palette, &frames_in).unwrap();
    let (_, frames_out) = decode_all(&bytes);
    assert_eq!(frames_out.len(), 3);
    for k in 0..3usize {
        assert_eq!(frames_out[k].buffer.as_ref(), vec![1 + k as u8; 4].as_slice());
        assert_eq!(frames_out[k].delay, 100);
    }
}

#[test]
fn oversized_palette_is_a_fatal_encoding_error() {
    // 257 color triples: more than a GIF color table can hold.
    let palette = vec![0u8; 257 * 3];
    let frame = Frame {
        width: 1,
        height: 1,
        buffer: vec![0],
        delay: 100,
        transparent: None,
    };
    let r = encode_gif(1, 1, &palette, &vec![frame]);
    assert_eq!(r, Err(RenderError::Encoding));
}
