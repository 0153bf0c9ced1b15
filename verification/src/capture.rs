//! The capture pipeline: crop, resize, encode, and transport wrapping.
//!
//! A captured frame is shaped to the requested dimensions — in crop mode an
//! origin-anchored region of the target scaled by the display's fractional
//! device-pixel ratio is cut first — then resized with the fixed Lanczos
//! filter, encoded as PNG into memory, and wrapped as base64 text for
//! transport. The scaling product is a floating-point step and is taken at
//! the boundary that owns the OS handle; this module receives the crop
//! region as plain values. Crop coordinates are always anchored at the
//! frame's origin; an arbitrary sub-rectangle is out of this design's scope.

use vstd::prelude::*;

use base64::Engine as _;

use crate::errors::Error;

verus! {

/// The largest PNG byte count whose base64 wrapping still fits in memory;
/// four output characters are written for every started triple of bytes.
pub const BASE64_INPUT_LIMIT: usize = usize::MAX / 4 * 3 - 2;

/// One raw RGBA frame: row-major pixels, four bytes each, owned by the
/// pipeline for the duration of one capture call.
pub struct Frame {
    /// Width in device pixels.
    pub width: u32,
    /// Height in device pixels.
    pub height: u32,
    /// Row-major RGBA bytes, exactly four per pixel.
    pub pixels: Vec<u8>,
}

impl Frame {
    /// Well-formedness: the buffer holds exactly four bytes per pixel.
    pub open spec fn wf(self) -> bool {
        self.pixels@.len() == 4 * self.width * self.height
    }
}

/// Builds a frame from raw RGBA bytes, refusing a buffer whose length does
/// not match the dimensions.
pub fn frame_from_raw(width: u32, height: u32, pixels: Vec<u8>) -> (r: Option<Frame>)
    ensures
        r is Some <==> pixels@.len() == 4 * width * height,
        r matches Some(f) ==> f.width == width && f.height == height && f.pixels@ == pixels@
            && f.wf(),
{
    proof {
        assert(4 * (width as int) * (height as int) <= u128::MAX) by (nonlinear_arith)
            requires
                width <= u32::MAX,
                height <= u32::MAX,
        ;
    }
    if pixels.len() as u128 == 4u128 * (width as u128) * (height as u128) {
        Some(Frame { width, height, pixels })
    } else {
        None
    }
}

/// The bytes of the top-left `cw` by `ch` region of a `w`-wide RGBA frame,
/// row by row.
pub open spec fn cropped(pixels: Seq<u8>, w: int, cw: int, ch: int) -> Seq<u8> {
    Seq::new(
        (4 * cw * ch) as nat,
        |k: int|
            {
                let p = k / 4;
                let b = k % 4;
                let row = p / cw;
                let col = p % cw;
                pixels[4 * (row * w + col) + b]
            },
    )
}

/// What the Lanczos resampler delivers for a frame and a pair of target
/// dimensions. The resampled bytes are a function of its arguments alone.
pub uninterp spec fn lanczos_resized(pixels: Seq<u8>, w: int, h: int, tw: int, th: int) -> Seq<
    u8,
>;

/// The PNG encoding of an RGBA frame. The encoded bytes are a function of
/// its arguments alone.
pub uninterp spec fn png_bytes(pixels: Seq<u8>, w: int, h: int) -> Seq<u8>;

/// Whether the PNG encoder accepts an RGBA frame; writing to an in-memory
/// buffer, its outcome is a function of its arguments alone.
pub uninterp spec fn png_encode_ok(pixels: Seq<u8>, w: int, h: int) -> bool;

/// The standard padded base64 text of a byte string, a function of the
/// bytes alone.
pub uninterp spec fn base64_standard(bytes: Seq<u8>) -> Seq<char>;

/// Relies on image::imageops::crop_imm and SubImage::to_image: the copied
/// region is anchored at the frame's origin and clamped to the frame's
/// extent, and its pixels are taken over row by row, byte for byte.
#[verifier::external_body]
fn crop_frame(f: &Frame, cw: u32, ch: u32) -> (r: Frame)
    requires
        f.wf(),
    ensures
        r.width == if cw <= f.width {
            cw
        } else {
            f.width
        },
        r.height == if ch <= f.height {
            ch
        } else {
            f.height
        },
        r.pixels@ == cropped(f.pixels@, f.width as int, r.width as int, r.height as int),
{
    let img = image::RgbaImage::from_raw(f.width, f.height, f.pixels.clone())
        .expect("frame buffer length");
    let out = image::imageops::crop_imm(&img, 0, 0, cw, ch).to_image();
    Frame { width: out.width(), height: out.height(), pixels: out.into_raw() }
}

/// Relies on image::imageops::resize with the Lanczos3 filter: the output
/// buffer has exactly the requested dimensions, four bytes per pixel. The
/// resampler first builds an intermediate buffer of the source width by the
/// target height, so that product is bounded too.
#[verifier::external_body]
fn resize_frame(f: &Frame, tw: u32, th: u32) -> (r: Frame)
    requires
        f.wf(),
        4 * tw * th <= usize::MAX,
        4 * f.width * th <= usize::MAX,
    ensures
        r.width == tw,
        r.height == th,
        r.pixels@ == lanczos_resized(
            f.pixels@,
            f.width as int,
            f.height as int,
            tw as int,
            th as int,
        ),
        r.pixels@.len() == 4 * tw * th,
{
    let img = image::RgbaImage::from_raw(f.width, f.height, f.pixels.clone())
        .expect("frame buffer length");
    let out = image::imageops::resize(&img, tw, th, image::imageops::FilterType::Lanczos3);
    Frame { width: out.width(), height: out.height(), pixels: out.into_raw() }
}

/// Relies on ImageBuffer::write_to with the PNG format: writing into an
/// in-memory buffer, the call succeeds or fails as a function of the frame
/// alone, and the encoded bytes are a function of the frame alone; an
/// encoder failure is surfaced as an error, never unwrapped away.
#[verifier::external_body]
fn encode_png(f: &Frame) -> (r: Result<Vec<u8>, Error>)
    requires
        f.wf(),
    ensures
        r is Ok <==> png_encode_ok(f.pixels@, f.width as int, f.height as int),
        r matches Ok(v) ==> v@ == png_bytes(f.pixels@, f.width as int, f.height as int),
        r matches Err(e) ==> e is Encode,
{
    let img = image::RgbaImage::from_raw(f.width, f.height, f.pixels.clone())
        .expect("frame buffer length");
    let mut buffer: Vec<u8> = Vec::new();
    let mut cursor = std::io::Cursor::new(&mut buffer);
    match img.write_to(&mut cursor, image::ImageFormat::Png) {
        Ok(()) => Ok(buffer),
        Err(e) => Err(Error::Encode(e.to_string())),
    }
}

/// Relies on base64's STANDARD engine: the text is a function of the bytes
/// alone, four characters for every started triple of bytes, padded.
#[verifier::external_body]
fn encode_base64(bytes: &Vec<u8>) -> (r: String)
    requires
        4 * ((bytes@.len() + 2) / 3) <= usize::MAX,
    ensures
        r@ == base64_standard(bytes@),
        r@.len() == 4 * ((bytes@.len() + 2) / 3),
{
    base64::engine::general_purpose::STANDARD.encode(bytes)
}

/// The pixel bytes the shaping step delivers for a request: the Lanczos
/// resampling to the target of either the whole frame, or, where a crop
/// region is requested, of that origin-anchored region clamped to the frame.
pub open spec fn capture_output(
    pixels: Seq<u8>,
    fw: int,
    fh: int,
    tw: int,
    th: int,
    crop: Option<(u32, u32)>,
) -> Seq<u8> {
    match crop {
        Some((cw0, ch0)) => {
            let cw = if cw0 <= fw {
                cw0 as int
            } else {
                fw
            };
            let ch = if ch0 <= fh {
                ch0 as int
            } else {
                fh
            };
            lanczos_resized(cropped(pixels, fw, cw, ch), cw, ch, tw, th)
        },
        None => lanczos_resized(pixels, fw, fh, tw, th),
    }
}

/// Shapes a captured frame to a request. The delivered frame has exactly
/// the target dimensions, whatever the source resolution. A requested crop
/// region — the target scaled by the display's fractional device-pixel
/// ratio, a product the caller takes at the boundary and hands in as plain
/// values — is cut from the frame's origin, clamped to the frame, before
/// resampling.
pub fn transform_frame(frame: &Frame, target_w: u32, target_h: u32, crop: Option<(u32, u32)>) -> (r:
    Frame)
    requires
        frame.wf(),
        4 * target_w * target_h <= usize::MAX,
        4 * frame.width * target_h <= usize::MAX,
    ensures
        r.width == target_w,
        r.height == target_h,
        r.wf(),
        r.pixels@ == capture_output(
            frame.pixels@,
            frame.width as int,
            frame.height as int,
            target_w as int,
            target_h as int,
            crop,
        ),
{
    match crop {
        Some((cw, ch)) => {
            let cut = crop_frame(frame, cw, ch);
            proof {
                assert(4 * cut.width * target_h <= 4 * frame.width * target_h)
                    by (nonlinear_arith)
                    requires
                        cut.width <= frame.width,
                        target_h >= 0,
                ;
            }
            resize_frame(&cut, target_w, target_h)
        },
        None => resize_frame(frame, target_w, target_h),
    }
}

/// Runs the pipeline on one captured frame: shape to the request, encode as
/// PNG in memory, and wrap as transport-safe base64 text. The shaping never
/// fails; the call succeeds exactly where the PNG encoder accepts the shaped
/// frame and the encoding fits the transport wrapping, and every failure it
/// reports is an encoding failure.
pub fn process_capture(
    frame: &Frame,
    target_w: u32,
    target_h: u32,
    crop: Option<(u32, u32)>,
) -> (r: Result<String, Error>)
    requires
        frame.wf(),
        4 * target_w * target_h <= usize::MAX,
        4 * frame.width * target_h <= usize::MAX,
    ensures
        r is Ok <==> png_encode_ok(
            capture_output(
                frame.pixels@,
                frame.width as int,
                frame.height as int,
                target_w as int,
                target_h as int,
                crop,
            ),
            target_w as int,
            target_h as int,
        ) && png_bytes(
            capture_output(
                frame.pixels@,
                frame.width as int,
                frame.height as int,
                target_w as int,
                target_h as int,
                crop,
            ),
            target_w as int,
            target_h as int,
        ).len() <= BASE64_INPUT_LIMIT,
        r matches Ok(s) ==> s@ == base64_standard(
            png_bytes(
                capture_output(
                    frame.pixels@,
                    frame.width as int,
                    frame.height as int,
                    target_w as int,
                    target_h as int,
                    crop,
                ),
                target_w as int,
                target_h as int,
            ),
        ),
        r matches Err(e) ==> e is Encode,
{
    let shaped = transform_frame(frame, target_w, target_h, crop);
    let png = encode_png(&shaped)?;
    if png.len() <= BASE64_INPUT_LIMIT {
        Ok(encode_base64(&png))
    } else {
        Err(Error::Encode("encoded image too large".to_owned()))
    }
}

} // verus!
