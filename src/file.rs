use vstd::prelude::*;
use crate::encode::{encode_rgba, encoder_result, ConvertError};
use crate::format::{format_of_name, get_format, Format};
use crate::plan::{plan, unresized, Arg, PlannedDimensions};

verus! {

/// What becomes of the bytes of a file image.
#[derive(Clone, Copy, Debug, PartialEq, Eq, Structural)]
pub enum FileAction {
    /// They are handed on as they are.
    KeepBytes,
    /// The decoded image is written anew in the format.
    Reencode(Format),
}

/// A file in format `detected` is saved in `requested`, or in its own
/// format where the caller asked to keep it. Its bytes are written anew
/// when the image is resized or the format to save in differs from its own.
pub open spec fn spec_file_action(detected: Format, requested: Format, ignore_format: bool, resized: bool) -> FileAction {
    let save = if ignore_format { detected } else { requested };
    if resized || save != detected {
        FileAction::Reencode(save)
    } else {
        FileAction::KeepBytes
    }
}

/// Decides what becomes of a file image's bytes.
pub fn file_action(detected: Format, requested: Format, ignore_format: bool, resized: bool) -> (r: FileAction)
    ensures
        r == spec_file_action(detected, requested, ignore_format, resized),
{
    let save = if ignore_format { detected } else { requested };
    if resized || save != detected {
        FileAction::Reencode(save)
    } else {
        FileAction::KeepBytes
    }
}

/// The `Format` that a file's signature shows, if it shows one of them.
pub uninterp spec fn detected_format(buf: Seq<u8>) -> Option<Format>;

/// The width and height of the image that the bytes decode to, if they do.
pub uninterp spec fn decoded_size(buf: Seq<u8>) -> Option<(u32, u32)>;

/// Relies on image::guess_format: the format that the bytes' signature
/// shows, told apart by variant.
#[verifier::external_body]
fn guess_format(buf: &[u8]) -> (r: Option<Format>)
    ensures
        r == detected_format(buf@),
{
    match image::guess_format(buf) {
        Ok(image::ImageFormat::Jpeg) => Some(Format::Jpeg),
        Ok(image::ImageFormat::Png) => Some(Format::Png),
        Ok(image::ImageFormat::WebP) => Some(Format::WebP),
        Ok(image::ImageFormat::Bmp) => Some(Format::Bmp),
        Ok(image::ImageFormat::Gif) => Some(Format::Gif),
        Ok(image::ImageFormat::Avif) => Some(Format::Avif),
        _ => None,
    }
}

/// Relies on image::load_from_memory: the decoded image's width, height and
/// its pixels as 8-bit RGBA (DynamicImage::to_rgba8, four bytes a pixel),
/// or the codec's message.
#[verifier::external_body]
fn decode(buf: &[u8]) -> (r: Result<(u32, u32, Vec<u8>), String>)
    ensures
        r is Ok <==> decoded_size(buf@) is Some,
        r is Ok ==> decoded_size(buf@) == Some((r->Ok_0.0, r->Ok_0.1)),
        r is Ok ==> r->Ok_0.2@.len() == 4 * (r->Ok_0.0 as int) * (r->Ok_0.1 as int),
{
    match image::load_from_memory(buf) {
        Ok(img) => Ok((img.width(), img.height(), img.to_rgba8().into_raw())),
        Err(e) => Err(e.to_string()),
    }
}

/// The plan for a decoded image; one with no pixels keeps its size.
pub open spec fn size_plan(w: u32, h: u32, arg: &Arg) -> PlannedDimensions {
    if w > 0 && h > 0 {
        plan(w, h, arg.width, arg.height)
    } else {
        unresized(w, h)
    }
}

/// What becomes of a file's bytes under `arg`, once its signature and its
/// decoding have succeeded.
pub open spec fn file_outcome(buf: Seq<u8>, arg: &Arg) -> FileAction {
    let (w, h) = decoded_size(buf)->Some_0;
    spec_file_action(
        detected_format(buf)->Some_0,
        format_of_name(arg.format@)->Some_0,
        arg.ignore_format,
        size_plan(w, h, arg).resized,
    )
}

/// What `convert_file` gives for a file's bytes under `arg`.
pub open spec fn file_result(r: Result<Vec<u8>, ConvertError>, buf: Seq<u8>, arg: &Arg) -> bool {
    if format_of_name(arg.format@) is None {
        r matches Err(ConvertError::UnknownFormat)
    } else if detected_format(buf) is None {
        r matches Err(ConvertError::NoImage)
    } else if decoded_size(buf) is None {
        r matches Err(ConvertError::Decode(_))
    } else {
        match file_outcome(buf, arg) {
            FileAction::KeepBytes => r matches Ok(b) && b@ == buf,
            FileAction::Reencode(f) => {
                let (w, h) = decoded_size(buf)->Some_0;
                exists|px: Seq<u8>|
                    px.len() == 4 * w * h && #[trigger] encoder_result(r, px, w, h, f, size_plan(w, h, arg))
            },
        }
    }
}

/// Converts the bytes of an image file: its format is found from its
/// signature, it is decoded, and where the size or the format changes it is
/// written anew as a clipboard image would be; else the bytes come back as
/// they are.
pub fn convert_file(buf: Vec<u8>, arg: &Arg) -> (r: Result<Vec<u8>, ConvertError>)
    ensures
        file_result(r, buf@, arg),
        format_of_name(arg.format@) is None <==> r matches Err(ConvertError::UnknownFormat),
{
    let requested = match get_format(arg.format.as_str()) {
        Some(f) => f,
        None => return Err(ConvertError::UnknownFormat),
    };
    let detected = match guess_format(buf.as_slice()) {
        Some(f) => f,
        None => return Err(ConvertError::NoImage),
    };
    let (w, h, rgba) = match decode(buf.as_slice()) {
        Ok(d) => d,
        Err(e) => return Err(ConvertError::Decode(e)),
    };
    let p = if w > 0 && h > 0 {
        arg.get_image_width(w, h)
    } else {
        PlannedDimensions { width: w, height: h, scale_num: 1, scale_den: 1, resized: false }
    };
    match file_action(detected, requested, arg.ignore_format, p.resized) {
        FileAction::KeepBytes => Ok(buf),
        FileAction::Reencode(f) => {
            let r = encode_rgba(w, h, rgba.as_slice(), f, p);
            assert(encoder_result(r, rgba@, w, h, f, size_plan(w, h, arg)));
            r
        },
    }
}

} // verus!
