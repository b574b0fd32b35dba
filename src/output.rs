use vstd::prelude::*;
use crate::encode::{binary_result, to_binary, ConvertError};
use crate::file::{convert_file, file_result};
use crate::format::format_of_name;
use crate::plan::Arg;

verus! {

/// The standard base64 text, with padding, of the bytes.
pub uninterp spec fn base64_standard(bytes: Seq<u8>) -> Seq<char>;

/// The length of padded base64 text for `n` bytes: four characters for each
/// started group of three.
pub open spec fn base64_len(n: int) -> int {
    4 * ((n + 2) / 3)
}

/// Relies on base64's STANDARD engine and Engine::encode, which writes four
/// characters for each started group of three bytes, padded with `=`, and
/// panics only where that length overflows usize.
#[verifier::external_body]
fn base64_encode(bytes: &[u8]) -> (r: String)
    requires
        base64_len(bytes@.len() as int) <= usize::MAX,
    ensures
        r@ == base64_standard(bytes@),
        r@.len() == base64_len(bytes@.len() as int),
{
    base64::Engine::encode(&base64::prelude::BASE64_STANDARD, bytes)
}

/// The text that image bytes, or the error in their place, become: their
/// base64 where they are few enough to write, else the error.
pub open spec fn text_result(bytes: Result<Vec<u8>, ConvertError>, r: Result<String, ConvertError>) -> bool {
    match bytes {
        Ok(b) => if b@.len() <= usize::MAX / 4 * 3 {
            r matches Ok(s) && s@ == base64_standard(b@)
        } else {
            r matches Err(ConvertError::TooLarge)
        },
        Err(e) => r == Err::<String, ConvertError>(e),
    }
}

fn text_of(bytes: Result<Vec<u8>, ConvertError>) -> (r: Result<String, ConvertError>)
    ensures
        text_result(bytes, r),
{
    match bytes {
        Ok(b) => if b.len() > usize::MAX / 4 * 3 {
            Err(ConvertError::TooLarge)
        } else {
            Ok(base64_encode(b.as_slice()))
        },
        Err(e) => Err(e),
    }
}

/// The base64 text of a `width` x `height` RGBA image encoded in the format
/// that `arg` names, within its bounding box.
pub fn clipboard_image_text(width: u32, height: u32, rgba: &[u8], arg: &Arg) -> (r: Result<String, ConvertError>)
    requires
        width > 0,
        height > 0,
        rgba@.len() == 4 * (width as int) * (height as int),
    ensures
        exists|b: Result<Vec<u8>, ConvertError>|
            binary_result(b, width, height, rgba@, arg) && #[trigger] text_result(b, r),
        format_of_name(arg.format@) is None <==> r matches Err(ConvertError::UnknownFormat),
{
    let b = to_binary(width, height, rgba, arg);
    let ghost gb = b;
    let r = text_of(b);
    assert(binary_result(gb, width, height, rgba@, arg) && text_result(gb, r));
    r
}

/// The base64 text of an image file's bytes, converted as `arg` asks.
pub fn file_image_text(buf: Vec<u8>, arg: &Arg) -> (r: Result<String, ConvertError>)
    ensures
        exists|b: Result<Vec<u8>, ConvertError>| file_result(b, buf@, arg) && #[trigger] text_result(b, r),
        format_of_name(arg.format@) is None <==> r matches Err(ConvertError::UnknownFormat),
{
    let ghost input = buf@;
    let b = convert_file(buf, arg);
    let ghost gb = b;
    let r = text_of(b);
    assert(file_result(gb, input, arg) && text_result(gb, r));
    r
}

} // verus!
