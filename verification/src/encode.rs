//! Encoding captured images for persistence: the still-image encoders
//! the caller can choose between, and the per-extension preparation of
//! an image about to be written to disk. Writing the bytes out is the
//! caller's business; everything up to the bytes is decided here.
use vstd::prelude::*;

use crate::imaging::{
    encode_png, encode_webp, height_of, pixel_bytes_of, png_bytes_of, webp_bytes_of, width_of,
    PixelBuffer,
};

verus! {

#[verifier::external_type_specification]
#[verifier::external_body]
pub struct ExJxlEncodeErrors(zune_jpegxl::JxlEncodeErrors);

/// The JPEG XL encoding of a width-by-height 8-bit RGB buffer.
pub uninterp spec fn jxl_bytes_of(rgb: Seq<u8>, width: usize, height: usize) -> Seq<u8>;

/// Relies on `JxlSimpleEncoder::encode` over an 8-bit RGB buffer: a
/// pure function of the buffer and the dimensions. On dimensions of at
/// least 2 it fails exactly when the buffer's length is not
/// `3 * width * height`; the `Vec` sink cannot fail. Its header writer
/// asserts each dimension below 2 to the 30th, and its length check
/// multiplies the dimensions unchecked, so larger dimensions and
/// overflowing byte counts are excluded here rather than risked.
#[verifier::external_body]
fn encode_jxl(rgb_data: &Vec<u8>, width: usize, height: usize) -> (r: Result<
    Vec<u8>,
    zune_jpegxl::JxlEncodeErrors,
>)
    requires
        width >= 2,
        height >= 2,
        width < 0x4000_0000,
        height < 0x4000_0000,
        3 * width * height <= usize::MAX,
    ensures
        r matches Ok(bytes) ==> bytes@ == jxl_bytes_of(rgb_data@, width, height),
        r is Ok <==> rgb_data@.len() == 3 * width * height,
{
    let options = zune_core::options::EncoderOptions::new(
        width,
        height,
        zune_core::colorspace::ColorSpace::RGB,
        zune_core::bit_depth::BitDepth::Eight,
    );
    let encoder = zune_jpegxl::JxlSimpleEncoder::new(rgb_data.as_slice(), options);
    let mut sink: Vec<u8> = Vec::new();
    match encoder.encode(&mut sink) {
        Ok(_) => Ok(sink),
        Err(e) => Err(e),
    }
}

/// The RGB bytes of an RGBA buffer: every fourth byte (the alpha
/// channel) dropped, whole pixels only.
pub open spec fn spec_drop_alpha(data: Seq<u8>) -> Seq<u8> {
    Seq::new(((data.len() / 4) * 3) as nat, |i: int| data[(i / 3) * 4 + (i % 3)])
}

/// Strips the alpha channel from an RGBA byte buffer, keeping the
/// color bytes of each whole pixel in order.
pub fn rgba_to_rgb_bytes(data: &Vec<u8>) -> (r: Vec<u8>)
    ensures
        r@ == spec_drop_alpha(data@),
{
    let n: usize = data.len();
    let pixel_count: usize = n / 4;
    let mut rgb: Vec<u8> = Vec::new();
    assert(4 * pixel_count <= n) by {
        assert(n == 4 * (n / 4) + n % 4);
    }
    let mut i: usize = 0;
    while i < pixel_count
        invariant
            i <= pixel_count,
            n == data@.len(),
            pixel_count == data@.len() / 4,
            4 * pixel_count <= n,
            rgb@.len() == 3 * i,
            forall|j: int| 0 <= j < 3 * i ==> rgb@[j] == spec_drop_alpha(data@)[j],
        decreases pixel_count - i,
    {
        assert(i * 4 + 4 <= 4 * pixel_count);
        let base: usize = i * 4;
        rgb.push(data[base]);
        rgb.push(data[base + 1]);
        rgb.push(data[base + 2]);
        i = i + 1;
    }
    assert(rgb@ =~= spec_drop_alpha(data@));
    rgb
}

/// The still-image encoders a caller can select for the final capture.
pub enum ImageEncoder {
    Webp,
    Png,
}

/// Encodes the image losslessly with the selected encoder. An encoder
/// failure surfaces as a descriptive error instead of a panic.
pub fn encode_image(image: &PixelBuffer, encoder: ImageEncoder) -> (r: Result<Vec<u8>, String>)
    ensures
        r matches Ok(bytes) ==> match encoder {
            ImageEncoder::Webp => bytes@ == webp_bytes_of(
                pixel_bytes_of(*image),
                width_of(*image),
                height_of(*image),
            ),
            ImageEncoder::Png => bytes@ == png_bytes_of(
                pixel_bytes_of(*image),
                width_of(*image),
                height_of(*image),
            ),
        },
        (encoder is Webp && 1 <= width_of(*image) <= 16384 && 1 <= height_of(*image) <= 16384)
            ==> r is Ok,
        (encoder is Png && width_of(*image) >= 1 && height_of(*image) >= 1) ==> r is Ok,
        r matches Err(e) ==> e@.len() > 0,
{
    proof {
        reveal_strlit("failed to encode the image");
    }
    let encoded = match encoder {
        ImageEncoder::Webp => encode_webp(image),
        ImageEncoder::Png => encode_png(image),
    };
    match encoded {
        Ok(bytes) => Ok(bytes),
        Err(_) => Err("failed to encode the image".to_owned()),
    }
}

/// What the caller must write out for one image and file extension: the
/// ready-encoded bytes, the image reduced to RGB pixels (width, height,
/// bytes), or the image exactly as it stands.
pub enum SavePayload {
    Encoded(Vec<u8>),
    RgbPixels(u32, u32, Vec<u8>),
    Original,
}

/// Decides, from the target file extension, what is to be written out:
/// a JPEG XL target is encoded here (on the RGB bytes, as that encoder
/// takes no alpha); a JPEG target gets the RGB pixel bytes, since that
/// format carries no alpha either; any other extension takes the image
/// as it stands, for an encoder chosen downstream by extension.
pub fn prepare_image_for_save(image: &PixelBuffer, extension: &String) -> (r: Result<
    SavePayload,
    String,
>)
    ensures
        extension@ == "jxl"@ ==> (r matches Ok(p) ==> {
            &&& p is Encoded
            &&& p->Encoded_0@ == jxl_bytes_of(
                spec_drop_alpha(pixel_bytes_of(*image)),
                width_of(*image) as usize,
                height_of(*image) as usize,
            )
        }),
        extension@ == "jxl"@ && (width_of(*image) < 2 || height_of(*image) < 2) ==> r is Err,
        extension@ == "jxl"@ && (width_of(*image) >= 0x4000_0000 || height_of(*image)
            >= 0x4000_0000) ==> r is Err,
        (extension@ == "jxl"@ && 2 <= width_of(*image) < 0x4000_0000 && 2 <= height_of(*image)
            < 0x4000_0000 && pixel_bytes_of(*image).len() == 4 * width_of(*image) * height_of(
            *image,
        ) && 3 * width_of(*image) * height_of(*image) <= usize::MAX) ==> r is Ok,
        extension@ != "jxl"@ && extension@ == "jpg"@ ==> {
            &&& r is Ok
            &&& r->Ok_0 is RgbPixels
            &&& r->Ok_0->RgbPixels_0 == width_of(*image)
            &&& r->Ok_0->RgbPixels_1 == height_of(*image)
            &&& r->Ok_0->RgbPixels_2@ == spec_drop_alpha(pixel_bytes_of(*image))
        },
        extension@ != "jxl"@ && extension@ != "jpg"@ ==> (r is Ok && r->Ok_0 is Original),
        r matches Err(e) ==> e@.len() > 0,
{
    let jxl: String = "jxl".to_owned();
    let jpg: String = "jpg".to_owned();
    if extension.eq(&jxl) {
        let (width, height) = image.dimensions();
        if width < 2 || height < 2 {
            proof {
                reveal_strlit("the image is too small to encode as jpeg xl");
            }
            return Err("the image is too small to encode as jpeg xl".to_owned());
        }
        proof {
            reveal_strlit("the image is too large to encode as jpeg xl");
        }
        if width >= 0x4000_0000 || height >= 0x4000_0000 {
            return Err("the image is too large to encode as jpeg xl".to_owned());
        }
        proof {
            assert((width as int) * (height as int) >= 0 && 3 * ((width as int) * (
            height as int)) == 3 * (width as int) * (height as int)) by (nonlinear_arith)
                requires
                    width >= 0,
                    height >= 0,
            ;
        }
        let pixel_area = match (width as usize).checked_mul(height as usize) {
            Some(area) => area,
            None => {
                return Err("the image is too large to encode as jpeg xl".to_owned());
            },
        };
        assert(pixel_area * 3 == 3 * (width as int) * (height as int)) by (nonlinear_arith)
            requires
                pixel_area == (width as int) * (height as int),
        ;
        if pixel_area.checked_mul(3).is_none() {
            return Err("the image is too large to encode as jpeg xl".to_owned());
        }
        let rgb = rgba_to_rgb_bytes(&image.to_bytes());
        proof {
            if pixel_bytes_of(*image).len() == 4 * width_of(*image) * height_of(*image) {
                vstd::arithmetic::div_mod::lemma_div_multiples_vanish(
                    (width as int) * (height as int),
                    4,
                );
                assert(rgb@.len() == 3 * (width as int) * (height as int)) by (nonlinear_arith)
                    requires
                        rgb@.len() == (pixel_bytes_of(*image).len() / 4) * 3,
                        pixel_bytes_of(*image).len() == 4 * (width as int) * (height as int),
                        (4 * ((width as int) * (height as int))) / 4 == (width as int) * (
                        height as int),
                ;
            }
        }
        match encode_jxl(&rgb, width as usize, height as usize) {
            Ok(bytes) => Ok(SavePayload::Encoded(bytes)),
            Err(_) => {
                proof {
                    reveal_strlit("failed to encode the image as jpeg xl");
                }
                Err("failed to encode the image as jpeg xl".to_owned())
            },
        }
    } else if extension.eq(&jpg) {
        let (width, height) = image.dimensions();
        let rgb = rgba_to_rgb_bytes(&image.to_bytes());
        Ok(SavePayload::RgbPixels(width, height, rgb))
    } else {
        Ok(SavePayload::Original)
    }
}

} // verus!
