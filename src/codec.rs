use vstd::prelude::*;

use image::codecs::png::PngEncoder;
use image::{ColorType, ImageEncoder, ImageFormat};

use crate::error::CoreError;
use crate::pixels::PixelBuffer;

verus! {

/// Width, height and row-major RGBA bytes of the image that PNG bytes
/// encode, or `None` when they do not decode.
pub uninterp spec fn png_rgba_of(bytes: Seq<u8>) -> Option<(u32, u32, Seq<u8>)>;

/// The PNG encoding of an RGBA image of the given size.
pub uninterp spec fn png_bytes_of(width: u32, height: u32, rgba: Seq<u8>) -> Seq<u8>;

/// The largest RGBA buffer, in bytes, whose PNG encoding is certain to decode
/// again here: the decoder's default limits refuse to allocate beyond 512 MiB,
/// and this keeps a wide margin below that.
pub const PNG_ROUND_TRIP_MAX_BYTES: u64 = 256 * 1024 * 1024;

#[verifier::external_type_specification]
#[verifier::external_body]
pub struct ExImageError(image::ImageError);

/// Relies on image::load_from_memory_with_format with the PNG format; the
/// decoded image is turned into its width, height and row-major RGBA bytes,
/// four bytes per pixel. The outcome depends on the bytes alone.
#[verifier::external_body]
fn png_decode_rgba(bytes: &[u8]) -> (r: Result<(u32, u32, Vec<u8>), image::ImageError>)
    ensures
        r is Ok <==> png_rgba_of(bytes@) is Some,
        r matches Ok((w, h, v)) ==> png_rgba_of(bytes@) == Some((w, h, v@)) && v@.len() == 4 * (w
            * h),
{
    match image::load_from_memory_with_format(bytes, ImageFormat::Png) {
        Ok(img) => {
            let rgba = img.into_rgba8();
            Ok((rgba.width(), rgba.height(), rgba.into_raw()))
        },
        Err(e) => Err(e),
    }
}

/// Relies on PngEncoder's ImageEncoder::write_image with RGBA pixels of one
/// byte per channel, written into a `Vec`; it panics unless there are
/// exactly four bytes per pixel, and fails only on a zero width or height.
/// PNG is lossless: within the decoder's default allocation limit, the image
/// crate decodes the bytes back into the same size and RGBA bytes.
#[verifier::external_body]
fn png_encode_rgba(width: u32, height: u32, rgba: &[u8]) -> (r: Result<Vec<u8>, image::ImageError>)
    requires
        rgba@.len() == 4 * (width * height),
    ensures
        width >= 1 && height >= 1 ==> r is Ok,
        r matches Ok(b) ==> b@ == png_bytes_of(width, height, rgba@),
        r matches Ok(b) ==> (rgba@.len() <= PNG_ROUND_TRIP_MAX_BYTES ==> png_rgba_of(b@) == Some(
            (width, height, rgba@),
        )),
{
    let mut out: Vec<u8> = Vec::new();
    let written = PngEncoder::new(&mut out).write_image(rgba, width, height, ColorType::Rgba8);
    match written {
        Ok(()) => Ok(out),
        Err(e) => Err(e),
    }
}

/// Decodes PNG bytes into a pixel buffer; undecodable data, or an image
/// without pixels, is a `PixelSource` error.
pub fn decode_png(bytes: &[u8]) -> (r: Result<PixelBuffer, CoreError>)
    ensures
        r is Ok <==> (png_rgba_of(bytes@) matches Some((w, h, v)) && w * h >= 1),
        r matches Ok(p) ==> p.wf() && png_rgba_of(bytes@) == Some((p.width, p.height, p.rgba@)),
        r is Err ==> r == Err::<PixelBuffer, CoreError>(CoreError::PixelSource),
{
    match png_decode_rgba(bytes) {
        Ok((width, height, rgba)) => match PixelBuffer::new(width, height, rgba) {
            Some(p) => Ok(p),
            None => Err(CoreError::PixelSource),
        },
        Err(_) => Err(CoreError::PixelSource),
    }
}

/// Encodes a pixel buffer as PNG bytes; a well-formed buffer always encodes,
/// and one of at most `PNG_ROUND_TRIP_MAX_BYTES` bytes decodes back to itself.
pub fn encode_png(pixels: &PixelBuffer) -> (r: Result<Vec<u8>, CoreError>)
    requires
        pixels.wf(),
    ensures
        r matches Ok(b) ==> b@ == png_bytes_of(pixels.width, pixels.height, pixels.rgba@),
        r matches Ok(b) ==> (pixels.rgba@.len() <= PNG_ROUND_TRIP_MAX_BYTES ==> png_rgba_of(b@)
            == Some((pixels.width, pixels.height, pixels.rgba@))),
        r is Ok,
{
    assert(pixels.width >= 1 && pixels.height >= 1) by (nonlinear_arith)
        requires
            pixels.width * pixels.height >= 1,
    ;
    match png_encode_rgba(pixels.width, pixels.height, pixels.rgba.as_slice()) {
        Ok(bytes) => Ok(bytes),
        Err(_) => Err(CoreError::PixelSource),
    }
}

} // verus!
