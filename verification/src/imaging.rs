//! The pixel-buffer type the capturer and compositor work on: an RGBA
//! image of the `image` crate held behind an opaque struct, with its
//! contents named for the contracts and trusted wrappers around the
//! calls the logic makes (allocating a canvas, wrapping raw bytes,
//! reading dimensions, overlaying one buffer onto another).
use vstd::prelude::*;

verus! {

/// A width-by-height RGBA pixel buffer, 4 bytes per pixel. Wraps the
/// `image` crate's buffer type, which the verifier cannot look inside;
/// the contracts speak of it through `pixel_bytes_of`, `width_of` and
/// `height_of`.
#[verifier::external_body]
#[derive(Debug)]
pub struct PixelBuffer {
    inner: image::RgbaImage,
}

/// The underlying raw byte buffer of a pixel buffer.
pub uninterp spec fn pixel_bytes_of(b: PixelBuffer) -> Seq<u8>;

/// The width in pixels of a pixel buffer.
pub uninterp spec fn width_of(b: PixelBuffer) -> u32;

/// The height in pixels of a pixel buffer.
pub uninterp spec fn height_of(b: PixelBuffer) -> u32;

/// The canvas buffer after `imageops::overlay` has blended the frame
/// buffer onto it at the given offset, clipped to the canvas bounds.
pub uninterp spec fn overlay_of(
    canvas: Seq<u8>,
    canvas_width: u32,
    canvas_height: u32,
    frame: Seq<u8>,
    frame_width: u32,
    frame_height: u32,
    x: i64,
    y: i64,
) -> Seq<u8>;

#[verifier::external_type_specification]
#[verifier::external_body]
pub struct ExImageError(image::ImageError);

/// The lossless WebP encoding of a width-by-height RGBA buffer.
pub uninterp spec fn webp_bytes_of(pixels: Seq<u8>, width: u32, height: u32) -> Seq<u8>;

/// The fast-compression adaptive-filter PNG encoding of a
/// width-by-height RGBA buffer.
pub uninterp spec fn png_bytes_of(pixels: Seq<u8>, width: u32, height: u32) -> Seq<u8>;

/// The all-zero byte buffer of a blank width-by-height RGBA image.
pub open spec fn spec_blank_bytes(width: u32, height: u32) -> Seq<u8> {
    Seq::new((4 * width * height) as nat, |i: int| 0u8)
}

/// Relies on `ImageBuffer::new`: an image of the given dimensions whose
/// pixels are all zero, that is fully transparent black; it panics only
/// when the buffer length overflows `usize`, which the caller excludes.
#[verifier::external_body]
fn buffer_new(width: u32, height: u32) -> (r: PixelBuffer)
    requires
        4 * width * height <= usize::MAX,
    ensures
        width_of(r) == width,
        height_of(r) == height,
        pixel_bytes_of(r) == spec_blank_bytes(width, height),
{
    PixelBuffer { inner: image::RgbaImage::new(width, height) }
}

/// Relies on `ImageBuffer::from_raw`: succeeds exactly when the buffer
/// holds at least `4 * width * height` bytes (and that count fits in
/// `usize`), and then keeps the container as the image's raw buffer.
#[verifier::external_body]
fn buffer_from_raw(width: u32, height: u32, buf: Vec<u8>) -> (r: Option<PixelBuffer>)
    ensures
        r is Some <==> (4 * width * height <= usize::MAX && 4 * width * height <= buf@.len()),
        r is Some ==> {
            &&& width_of(r.unwrap()) == width
            &&& height_of(r.unwrap()) == height
            &&& pixel_bytes_of(r.unwrap()) == buf@
        },
{
    image::RgbaImage::from_raw(width, height, buf).map(|inner| PixelBuffer { inner })
}

/// Relies on `ImageBuffer::dimensions`: the stored width and height.
#[verifier::external_body]
fn buffer_dimensions(b: &PixelBuffer) -> (r: (u32, u32))
    ensures
        r.0 == width_of(*b),
        r.1 == height_of(*b),
{
    b.inner.dimensions()
}

/// Relies on `ImageBuffer::as_raw`: the image's raw byte buffer.
#[verifier::external_body]
fn buffer_raw_bytes(b: &PixelBuffer) -> (r: Vec<u8>)
    ensures
        r@ == pixel_bytes_of(*b),
{
    b.inner.as_raw().clone()
}

/// Relies on `imageops::overlay`: blends the frame onto the canvas at
/// `(x, y)`, clipped to the canvas bounds; it writes pixels in place, so
/// the canvas dimensions and buffer length are unchanged, and the result
/// depends only on the two buffers and the offset.
#[verifier::external_body]
pub(crate) fn overlay_onto(canvas: &mut PixelBuffer, frame: &PixelBuffer, x: i64, y: i64)
    ensures
        width_of(*final(canvas)) == width_of(*old(canvas)),
        height_of(*final(canvas)) == height_of(*old(canvas)),
        pixel_bytes_of(*final(canvas)).len() == pixel_bytes_of(*old(canvas)).len(),
        pixel_bytes_of(*final(canvas)) == overlay_of(
            pixel_bytes_of(*old(canvas)),
            width_of(*old(canvas)),
            height_of(*old(canvas)),
            pixel_bytes_of(*frame),
            width_of(*frame),
            height_of(*frame),
            x,
            y,
        ),
{
    image::imageops::overlay(&mut canvas.inner, &frame.inner, x, y)
}

/// Relies on `WebPEncoder::new_lossless` and
/// `ImageBuffer::write_with_encoder`: lossless WebP encoding, a pure
/// function of the pixel bytes and dimensions. The encoder fails only
/// when a dimension is zero or exceeds 16384; the `Vec` sink cannot
/// fail, so within those bounds encoding succeeds.
#[verifier::external_body]
pub(crate) fn encode_webp(b: &PixelBuffer) -> (r: Result<Vec<u8>, image::ImageError>)
    ensures
        r matches Ok(bytes) ==> bytes@ == webp_bytes_of(
            pixel_bytes_of(*b),
            width_of(*b),
            height_of(*b),
        ),
        (1 <= width_of(*b) <= 16384 && 1 <= height_of(*b) <= 16384) ==> r is Ok,
{
    let mut buf: Vec<u8> = Vec::new();
    b.inner.write_with_encoder(image::codecs::webp::WebPEncoder::new_lossless(&mut buf))?;
    Ok(buf)
}

/// Relies on `PngEncoder::new_with_quality` (fast compression,
/// adaptive filter) and `ImageBuffer::write_with_encoder`: PNG
/// encoding, a pure function of the pixel bytes and dimensions. The
/// encoder rejects only zero dimensions, and the `Vec` sink cannot
/// fail, so on nonzero dimensions encoding succeeds.
#[verifier::external_body]
pub(crate) fn encode_png(b: &PixelBuffer) -> (r: Result<Vec<u8>, image::ImageError>)
    ensures
        r matches Ok(bytes) ==> bytes@ == png_bytes_of(
            pixel_bytes_of(*b),
            width_of(*b),
            height_of(*b),
        ),
        (width_of(*b) >= 1 && height_of(*b) >= 1) ==> r is Ok,
{
    let mut buf: Vec<u8> = Vec::new();
    b.inner.write_with_encoder(image::codecs::png::PngEncoder::new_with_quality(
        &mut buf,
        image::codecs::png::CompressionType::Fast,
        image::codecs::png::FilterType::Adaptive,
    ))?;
    Ok(buf)
}

impl PixelBuffer {
    /// A fully transparent image of the given dimensions: the blank the
    /// compositor substitutes for a sentinel frame, and the 1-by-1
    /// sentinel itself when a backend marks a monitor as unsupported.
    pub fn blank(width: u32, height: u32) -> (r: PixelBuffer)
        requires
            4 * width * height <= usize::MAX,
        ensures
            width_of(r) == width,
            height_of(r) == height,
            pixel_bytes_of(r) == spec_blank_bytes(width, height),
    {
        buffer_new(width, height)
    }

    /// Wraps raw RGBA bytes into a pixel buffer; `None` when the buffer
    /// is too short for the dimensions.
    pub fn from_rgba_bytes(width: u32, height: u32, bytes: Vec<u8>) -> (r: Option<PixelBuffer>)
        ensures
            r is Some <==> (4 * width * height <= usize::MAX && 4 * width * height
                <= bytes@.len()),
            r is Some ==> {
                &&& width_of(r.unwrap()) == width
                &&& height_of(r.unwrap()) == height
                &&& pixel_bytes_of(r.unwrap()) == bytes@
            },
    {
        buffer_from_raw(width, height, bytes)
    }

    /// The width and height in pixels.
    pub fn dimensions(&self) -> (r: (u32, u32))
        ensures
            r.0 == width_of(*self),
            r.1 == height_of(*self),
    {
        buffer_dimensions(self)
    }

    /// A copy of the raw RGBA byte buffer.
    pub fn to_bytes(&self) -> (r: Vec<u8>)
        ensures
            r@ == pixel_bytes_of(*self),
    {
        buffer_raw_bytes(self)
    }
}

} // verus!
