//! Trusted boundary to the GIF container writer, and the verified frame
//! sequence it is fed. The encoder is modeled as a growing collection of
//! frame records; the final byte stream is a function of the encoder's state.

use vstd::prelude::*;
use std::io::Cursor;
use crate::RenderError;

verus! {

/// A GIF encoder writing into an in-memory buffer. The encoder type's `Write`
/// bound cannot be declared to the verifier, so the stream is held opaque in
/// this struct and spoken about only through `encoder_frames`,
/// `encoder_config` and `gif_stream_bytes`.
#[verifier::external_body]
pub struct GifStream {
    enc: gif::Encoder<Cursor<Vec<u8>>>,
}

/// One frame as handed to the encoder: width, height, pixel-index buffer,
/// delay in centiseconds, and the optional transparent palette index.
pub struct Frame {
    pub width: u16,
    pub height: u16,
    pub buffer: Vec<u8>,
    pub delay: u16,
    pub transparent: Option<u8>,
}

impl Frame {
    /// The buffer holds exactly one palette index per frame pixel.
    pub open spec fn wf(&self) -> bool {
        self.buffer@.len() == self.width as int * self.height as int
    }

    /// The frame reduced to its record: what the encoder is given.
    pub open spec fn rec(&self) -> (u16, u16, Seq<u8>, u16, Option<u8>) {
        (self.width, self.height, self.buffer@, self.delay, self.transparent)
    }
}

/// The records of a frame sequence, in order.
pub open spec fn frame_records(frames: Seq<Frame>) -> Seq<(u16, u16, Seq<u8>, u16, Option<u8>)> {
    frames.map_values(|f: Frame| f.rec())
}

/// The frame records an encoder has been fed so far, in order.
pub uninterp spec fn encoder_frames(e: GifStream) -> Seq<(u16, u16, Seq<u8>, u16, Option<u8>)>;

/// The stream configuration an encoder was given: logical screen width and
/// height, the global color table as supplied, and whether the loop-forever
/// extension has been written.
pub uninterp spec fn encoder_config(e: GifStream) -> (u16, u16, Seq<u8>, bool);

/// The complete byte stream of one encoding session: the logical screen
/// descriptor and global color table for the given configuration, the
/// loop-forever extension when requested (always ahead of the frames, which
/// `set_repeat_infinite`'s precondition forces), the frame image blocks with
/// their graphic control extensions in fed order, and the trailer. The
/// container writer is deterministic, so the bytes are a function of these
/// values alone.
pub uninterp spec fn gif_stream_bytes(
    width: u16,
    height: u16,
    palette: Seq<u8>,
    loop_forever: bool,
    frames: Seq<(u16, u16, Seq<u8>, u16, Option<u8>)>,
) -> Seq<u8>;

/// Relies on gif::Encoder::new: writes the logical screen descriptor and the
/// global color table into a fresh in-memory buffer. It fails exactly when
/// the palette holds more than 256 color triples; writing into the in-memory
/// buffer itself cannot fail. A new encoder has been fed no frames and has
/// not written the loop extension.
#[verifier::external_body]
fn encoder_new(width: u16, height: u16, palette: &Vec<u8>) -> (r: Result<GifStream, RenderError>)
    ensures
        r is Ok <==> palette@.len() / 3 <= 256,
        r matches Ok(e) ==> encoder_frames(e) == Seq::<(u16, u16, Seq<u8>, u16, Option<u8>)>::empty()
            && encoder_config(e) == (width, height, palette@, false),
        r is Err ==> r->Err_0 == RenderError::Encoding,
{
    match gif::Encoder::new(Cursor::new(Vec::new()), width, height, palette.as_slice()) {
        Ok(enc) => Ok(GifStream { enc }),
        Err(_) => Err(RenderError::Encoding),
    }
}

/// Relies on gif::Encoder::set_repeat: writes the Netscape application
/// extension that makes readers loop forever. It must be written once, before
/// any frame, so that the stream stays a function of the configuration and
/// the frame records. The frames already fed stay exactly as they were.
#[verifier::external_body]
fn set_repeat_infinite(e: &mut GifStream) -> (r: Result<(), RenderError>)
    requires
        encoder_frames(*old(e)) == Seq::<(u16, u16, Seq<u8>, u16, Option<u8>)>::empty(),
        !encoder_config(*old(e)).3,
    ensures
        encoder_frames(*final(e)) == encoder_frames(*old(e)),
        r is Ok ==> encoder_config(*final(e)) == (
            encoder_config(*old(e)).0,
            encoder_config(*old(e)).1,
            encoder_config(*old(e)).2,
            true,
        ),
        r is Err ==> r->Err_0 == RenderError::Encoding,
{
    match e.enc.set_repeat(gif::Repeat::Infinite) {
        Ok(()) => Ok(()),
        Err(_) => Err(RenderError::Encoding),
    }
}

/// Relies on gif::Encoder::write_frame: appends one image block, preceded by
/// a graphic control extension carrying the delay and the optional
/// transparent index. On success the encoder has been fed exactly the old
/// frames plus this one, in order. A frame fed to an encoder whose global
/// color table holds no complete color triple fails deterministically, since
/// the frame carries no local palette.
#[verifier::external_body]
fn write_frame_raw(
    e: &mut GifStream,
    width: u16,
    height: u16,
    buffer: &Vec<u8>,
    delay: u16,
    transparent: Option<u8>,
) -> (r: Result<(), RenderError>)
    requires
        buffer@.len() == width as int * height as int,
    ensures
        r is Ok ==> encoder_frames(*final(e)) == encoder_frames(*old(e)).push(
            (width, height, buffer@, delay, transparent),
        ) && encoder_config(*final(e)) == encoder_config(*old(e)),
        encoder_config(*old(e)).2.len() / 3 == 0 ==> r is Err,
        r is Err ==> r->Err_0 == RenderError::Encoding,
{
    let mut frame = gif::Frame::default();
    frame.width = width;
    frame.height = height;
    frame.buffer = std::borrow::Cow::Borrowed(buffer.as_slice());
    frame.delay = delay;
    frame.transparent = transparent;
    match e.enc.write_frame(&frame) {
        Ok(()) => Ok(()),
        Err(_) => Err(RenderError::Encoding),
    }
}

/// Relies on gif::Encoder::into_inner: writes the trailer block and hands
/// back the in-memory buffer - the complete, deterministic byte stream of
/// this session's configuration and frame records.
#[verifier::external_body]
fn encoder_finish(e: GifStream) -> (r: Result<Vec<u8>, RenderError>)
    ensures
        r matches Ok(v) ==> v@ == gif_stream_bytes(
            encoder_config(e).0,
            encoder_config(e).1,
            encoder_config(e).2,
            encoder_config(e).3,
            encoder_frames(e),
        ),
        r is Err ==> r->Err_0 == RenderError::Encoding,
{
    match e.enc.into_inner() {
        Ok(cursor) => Ok(cursor.into_inner()),
        Err(_) => Err(RenderError::Encoding),
    }
}

/// Assembles the finished GIF: screen descriptor and global palette once,
/// the loop-forever extension, then every frame in supplied order, then the
/// trailer. Callers must set each frame's transparent index, when there is
/// one, below the palette's entry count. Any encoder-level failure aborts the
/// whole render: no partial byte stream is ever returned; a palette of more
/// than 256 entries is always fatal.
pub fn encode_gif(width: u16, height: u16, palette: &Vec<u8>, frames: &Vec<Frame>) -> (r: Result<
    Vec<u8>,
    RenderError,
>)
    requires
        forall|i: int| 0 <= i < frames@.len() ==> frames@[i].wf(),
        forall|i: int|
            0 <= i < frames@.len() && frames@[i].transparent is Some
                ==> frames@[i].transparent->Some_0 < palette@.len() / 3,
    ensures
        r matches Ok(v) ==> v@ == gif_stream_bytes(
            width,
            height,
            palette@,
            true,
            frame_records(frames@),
        ),
        palette@.len() / 3 > 256 ==> r is Err,
        r is Err ==> r->Err_0 == RenderError::Encoding,
{
    let mut enc = match encoder_new(width, height, palette) {
        Ok(e) => e,
        Err(err) => {
            return Err(err);
        },
    };
    match set_repeat_infinite(&mut enc) {
        Ok(()) => (),
        Err(err) => {
            return Err(err);
        },
    }
    let n: usize = frames.len();
    let mut i: usize = 0;
    while i < n
        invariant
            i <= n,
            n == frames@.len(),
            forall|j: int| 0 <= j < frames@.len() ==> frames@[j].wf(),
            encoder_frames(enc) == frame_records(frames@.take(i as int)),
            encoder_config(enc) == (width, height, palette@, true),
        decreases n - i,
    {
        let f = &frames[i];
        match write_frame_raw(&mut enc, f.width, f.height, &f.buffer, f.delay, f.transparent) {
            Ok(()) => (),
            Err(err) => {
                return Err(err);
            },
        }
        proof {
            assert(frames@.take(i + 1) =~= frames@.take(i as int).push(frames@[i as int]));
            assert(frame_records(frames@.take(i + 1)) =~= frame_records(
                frames@.take(i as int),
            ).push(frames@[i as int].rec()));
        }
        i = i + 1;
    }
    proof {
        assert(frames@.take(n as int) =~= frames@);
    }
    match encoder_finish(enc) {
        Ok(bytes) => Ok(bytes),
        Err(err) => Err(err),
    }
}

} // verus!
