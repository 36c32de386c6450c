//! Renders an animated countdown clock as a looping, indexed-color GIF.
//!
//! Given a Unix timestamp, the library derives one wall-clock time string per
//! animation tick, rasterizes it onto a fixed-size canvas with anti-aliased
//! grayscale levels and template-anchored digit slots (so the clock does not
//! jitter between frames), optionally rounds the canvas corners via a
//! transparency mask, and assembles all frames into a single GIF byte stream.
//!
//! Text layout and glyph rasterization are delegated to the `fontdue` crate,
//! and the GIF container is written by the `gif` crate; both sit behind small
//! trusted wrappers. Everything else - palette construction, time arithmetic
//! and formatting, slot geometry, pixel compositing, corner masking, and frame
//! sequencing - is verified.

use vstd::prelude::*;

pub mod clock;
pub mod compose;
pub mod encode;
pub mod font;
pub mod mask;
pub mod palette;
pub mod render;
pub mod slots;

verus! {

/// Palette index GIF readers treat as see-through (when transparency is on).
pub const TRANSPARENT_INDEX: u8 = 0;

/// Reference canvas width in pixels.
pub const CANVAS_WIDTH: usize = 600;

/// Reference canvas height in pixels.
pub const CANVAS_HEIGHT: usize = 200;

/// Reference font size in pixel units.
pub const FONT_SIZE: u16 = 120;

/// Reference number of grayscale anti-aliasing levels.
pub const GRADIENT_LEVELS: u8 = 16;

/// Reference corner rounding radius in pixels (0 disables masking).
pub const CORNER_RADIUS: u32 = 20;

/// Palette index of the solid (white) background.
pub const BACKGROUND_INDEX: u8 = 1;

/// The two fatal failures of a render: the font asset cannot be parsed at
/// service start, or the GIF encoder rejects what it is fed. Per-frame layout
/// anomalies are not errors - the affected frame degrades to background-only.
#[derive(Clone, Copy, PartialEq, Eq, Structural, Debug)]
pub enum RenderError {
    FontLoad,
    Encoding,
}

} // verus!
