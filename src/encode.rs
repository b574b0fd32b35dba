use vstd::prelude::*;
use crate::format::{format_of_name, get_format, Format};
use crate::pixels::{flatten_alpha, normalized};
use crate::plan::{plan, Arg, PlannedDimensions};

verus! {

/// Why no image bytes came out.
#[derive(Debug)]
pub enum ConvertError {
    /// The requested format name is not one of the recognized ones.
    UnknownFormat,
    /// The file's bytes carry the signature of no format that can be read.
    NoImage,
    /// The codec could not decode the file's bytes; its message.
    Decode(String),
    /// The image bytes are too many to write as base64 text.
    TooLarge,
    /// The codec refused the pixels or the format; its message.
    Encode(String),
}

/// Bytes per pixel: four with alpha, three without.
pub open spec fn channels(with_alpha: bool) -> int {
    if with_alpha { 4 } else { 3 }
}

/// Whether the codec writes a `width` x `height` image of 8-bit RGBA (or
/// RGB) pixels in `format`; this depends on the size, the colour type and
/// the format, not on the pixels' values.
pub uninterp spec fn encode_accepts(width: u32, height: u32, with_alpha: bool, format: Format) -> bool;

/// The bytes of a `width` x `height` image in `format`, from RGBA pixels
/// where `with_alpha`, else from RGB pixels, as the image codec writes it.
pub uninterp spec fn encoded_image(
    pixels: Seq<u8>,
    width: u32,
    height: u32,
    with_alpha: bool,
    format: Format,
) -> Seq<u8>;

/// Relies on image::write_buffer_with_format, which picks the encoder for
/// the format and writes the pixels as 8-bit RGB or RGBA; its encoders
/// assert that the buffer holds exactly one pixel's bytes per pixel. The
/// AVIF encoder tiles the image by the machine's thread count, so its bytes
/// are left unnamed.
#[verifier::external_body]
fn write_image(data: &[u8], width: u32, height: u32, with_alpha: bool, format: Format) -> (r: Result<Vec<u8>, String>)
    requires
        data@.len() == channels(with_alpha) * width * height,
    ensures
        r is Ok <==> encode_accepts(width, height, with_alpha, format),
        r is Ok && format != Format::Avif ==> r->Ok_0@ == encoded_image(data@, width, height, with_alpha, format),
{
    let mut out = std::io::Cursor::new(Vec::new());
    let color = if with_alpha { image::ExtendedColorType::Rgba8 } else { image::ExtendedColorType::Rgb8 };
    let fmt = match format {
        Format::Jpeg => image::ImageFormat::Jpeg,
        Format::Png => image::ImageFormat::Png,
        Format::WebP => image::ImageFormat::WebP,
        Format::Bmp => image::ImageFormat::Bmp,
        Format::Gif => image::ImageFormat::Gif,
        Format::Avif => image::ImageFormat::Avif,
    };
    match image::write_buffer_with_format(&mut out, data, width, height, color, fmt) {
        Ok(()) => Ok(out.into_inner()),
        Err(e) => Err(e.to_string()),
    }
}

/// Relies on image::imageops::resize with the Gaussian filter, over a buffer
/// that ImageBuffer::from_raw accepts when it holds three bytes per pixel;
/// the result holds three bytes for each pixel of the new size.
#[verifier::external_body]
fn resize_rgb8(data: &[u8], width: u32, height: u32, new_width: u32, new_height: u32) -> (r: Option<Vec<u8>>)
    requires
        data@.len() == 3 * (width as int) * (height as int),
    ensures
        r is Some,
        r->Some_0@.len() == 3 * (new_width as int) * (new_height as int),
{
    match image::ImageBuffer::<image::Rgb<u8>, &[u8]>::from_raw(width, height, data) {
        Some(img) => Some(image::imageops::resize(&img, new_width, new_height, image::imageops::FilterType::Gaussian).into_raw()),
        None => None,
    }
}

/// Relies on image::imageops::resize with the Gaussian filter, over a buffer
/// that ImageBuffer::from_raw accepts when it holds four bytes per pixel;
/// the result holds four bytes for each pixel of the new size.
#[verifier::external_body]
fn resize_rgba8(data: &[u8], width: u32, height: u32, new_width: u32, new_height: u32) -> (r: Option<Vec<u8>>)
    requires
        data@.len() == 4 * (width as int) * (height as int),
    ensures
        r is Some,
        r->Some_0@.len() == 4 * (new_width as int) * (new_height as int),
{
    match image::ImageBuffer::<image::Rgba<u8>, &[u8]>::from_raw(width, height, data) {
        Some(img) => Some(image::imageops::resize(&img, new_width, new_height, image::imageops::FilterType::Gaussian).into_raw()),
        None => None,
    }
}

/// What `r` holds after `pixels`, `width` x `height`, went to the encoder
/// for `format`: success exactly where the codec accepts that image, the
/// codec's bytes (but for AVIF), or else its message.
pub open spec fn encodes_as(r: Result<Vec<u8>, ConvertError>, pixels: Seq<u8>, width: u32, height: u32, format: Format) -> bool {
    let a = format.spec_supports_alpha();
    &&& (r is Ok <==> encode_accepts(width, height, a, format))
    &&& (r is Ok && format != Format::Avif ==> r->Ok_0@ == encoded_image(pixels, width, height, a, format))
    &&& (r is Err ==> r matches Err(ConvertError::Encode(_)))
}

/// What encoding a `width` x `height` RGBA image in `format` under the plan
/// `p` gives: unresized, the normalized pixels go to the encoder at their
/// own size; resized, pixels of the planned size (resampled from the
/// normalized ones) go to it at that size.
pub open spec fn encoder_result(
    r: Result<Vec<u8>, ConvertError>,
    rgba: Seq<u8>,
    width: u32,
    height: u32,
    format: Format,
    p: PlannedDimensions,
) -> bool {
    if !p.resized {
        encodes_as(r, normalized(rgba, format.spec_supports_alpha()), width, height, format)
    } else {
        exists|px: Seq<u8>|
            px.len() == channels(format.spec_supports_alpha()) * p.width * p.height
                && #[trigger] encodes_as(r, px, p.width, p.height, format)
    }
}

/// Encodes a `width` x `height` RGBA image in `format` under the plan `p`:
/// alpha is flattened where the format has none, and the pixels are
/// resampled to the planned size where the plan asks for a resize.
pub fn encode_rgba(width: u32, height: u32, rgba: &[u8], format: Format, p: PlannedDimensions) -> (r: Result<Vec<u8>, ConvertError>)
    requires
        rgba@.len() == 4 * (width as int) * (height as int),
    ensures
        encoder_result(r, rgba@, width, height, format, p),
{
    let alpha = format.supports_alpha();
    let ghost n = (width as int) * (height as int);
    assert(4 * (width as int) * (height as int) == 4 * n
        && 3 * (width as int) * (height as int) == 3 * n) by (nonlinear_arith)
        requires n == (width as int) * (height as int);
    assert(rgba@.len() % 4 == 0 && rgba@.len() / 4 == n);
    let flat: Vec<u8>;
    let data: &[u8] = if alpha {
        rgba
    } else {
        flat = flatten_alpha(rgba);
        flat.as_slice()
    };
    assert(data@ == normalized(rgba@, alpha));
    let encoded = if p.resized {
        let resized = if alpha {
            resize_rgba8(data, width, height, p.width, p.height)
        } else {
            resize_rgb8(data, width, height, p.width, p.height)
        };
        match resized {
            Some(pixels) => {
                let e = write_image(pixels.as_slice(), p.width, p.height, alpha, format);
                let r = match e {
                    Ok(b) => Ok(b),
                    Err(m) => Err(ConvertError::Encode(m)),
                };
                assert(encodes_as(r, pixels@, p.width, p.height, format));
                return r;
            },
            None => write_image(data, width, height, alpha, format),
        }
    } else {
        write_image(data, width, height, alpha, format)
    };
    match encoded {
        Ok(b) => Ok(b),
        Err(e) => Err(ConvertError::Encode(e)),
    }
}

/// What `to_binary` gives for a `width` x `height` RGBA image under `arg`.
pub open spec fn binary_result(
    r: Result<Vec<u8>, ConvertError>,
    width: u32,
    height: u32,
    rgba: Seq<u8>,
    arg: &Arg,
) -> bool {
    match format_of_name(arg.format@) {
        None => r matches Err(ConvertError::UnknownFormat),
        Some(f) => encoder_result(r, rgba, width, height, f, plan(width, height, arg.width, arg.height)),
    }
}

/// Encodes a `width` x `height` RGBA image in the format that `arg` names,
/// flattening alpha where the format has none and shrinking it into the
/// bounding box of `arg`.
pub fn to_binary(width: u32, height: u32, rgba: &[u8], arg: &Arg) -> (r: Result<Vec<u8>, ConvertError>)
    requires
        width > 0,
        height > 0,
        rgba@.len() == 4 * (width as int) * (height as int),
    ensures
        binary_result(r, width, height, rgba@, arg),
        format_of_name(arg.format@) is None <==> r matches Err(ConvertError::UnknownFormat),
{
    let format = match get_format(arg.format.as_str()) {
        Some(f) => f,
        None => return Err(ConvertError::UnknownFormat),
    };
    let p = arg.get_image_width(width, height);
    encode_rgba(width, height, rgba, format, p)
}

} // verus!
