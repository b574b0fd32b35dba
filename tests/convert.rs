use base64::Engine;
use clip2b64::{
    clipboard_image_text, convert_file, encode_rgba, file_action, file_image_text, to_binary, Arg, ConvertError,
    FileAction, Format, PlannedDimensions,
};

fn arg(format: &str, width: Option<u32>, height: Option<u32>) -> Arg {
    Arg { format: String::from(format), width, height, ignore_format: false, stderr_path: false }
}

fn pixels(w: u32, h: u32) -> Vec<u8> {
    let mut v = Vec::new();
    for i in 0..(w * h) {
        v.extend_from_slice(&[(i % 251) as u8, (i % 13) as u8, 200, 255]);
    }
    v
}

fn decoded(bytes: &[u8]) -> (image::ImageFormat, u32, u32) {
    let f = image::guess_format(bytes).unwrap();
    let img = image::load_from_memory(bytes).unwrap();
    (f, img.width(), img.height())
}

#[test]
fn png_without_bounds_keeps_size() {
    let b = to_binary(800, 600, &pixels(800, 600), &arg("png", None, None)).unwrap();
    assert_eq!(decoded(&b), (image::ImageFormat::Png, 800, 600));
}

#[test]
fn width_bound_halves_image() {
    let b = to_binary(800, 600, &pixels(800, 600), &arg("png", Some(400), None)).unwrap();
    assert_eq!(decoded(&b), (image::ImageFormat::Png, 400, 300));
}

#[test]
fn larger_width_bound_keeps_size() {
    let b = to_binary(800, 600, &pixels(800, 600), &arg("png", Some(1000), None)).unwrap();
    assert_eq!(decoded(&b), (image::ImageFormat::Png, 800, 600));
}

#[test]
fn box_bound_width_binds() {
    let b = to_binary(1000, 500, &pixels(1000, 500), &arg("png", Some(400), Some(400))).unwrap();
    assert_eq!(decoded(&b), (image::ImageFormat::Png, 400, 200));
}

#[test]
fn transparent_pixel_to_jpeg_is_white() {
    let b = to_binary(1, 1, &[10, 20, 30, 0], &arg("jpg", None, None)).unwrap();
    let img = image::load_from_memory(&b).unwrap().to_rgb8();
    assert_eq!(image::guess_format(&b).unwrap(), image::ImageFormat::Jpeg);
    let p = img.get_pixel(0, 0).0;
    assert!(p.iter().all(|&c| c >= 250), "{:?}", p);
}

#[test]
fn png_keeps_alpha() {
    let b = to_binary(1, 1, &[10, 20, 30, 0], &arg("PNG", None, None)).unwrap();
    let img = image::load_from_memory(&b).unwrap().to_rgba8();
    assert_eq!(img.get_pixel(0, 0).0, [10, 20, 30, 0]);
}

#[test]
fn resized_jpeg() {
    let b = to_binary(64, 32, &pixels(64, 32), &arg("jpeg", None, Some(16))).unwrap();
    assert_eq!(decoded(&b), (image::ImageFormat::Jpeg, 32, 16));
}

#[test]
fn invalid_format_name_is_refused() {
    let r = to_binary(2, 2, &pixels(2, 2), &arg("foo", None, None));
    assert!(matches!(r, Err(ConvertError::UnknownFormat)));
    let t = clipboard_image_text(2, 2, &pixels(2, 2), &arg("foo", None, None));
    assert!(matches!(t, Err(ConvertError::UnknownFormat)));
}

#[test]
fn text_is_base64_of_binary() {
    let a = arg("bmp", None, None);
    let b = to_binary(3, 2, &pixels(3, 2), &a).unwrap();
    let t = clipboard_image_text(3, 2, &pixels(3, 2), &a).unwrap();
    assert_ne!(t.as_bytes(), &b[..]);
    assert_eq!(t.len(), 4 * ((b.len() + 2) / 3));
    assert_eq!(base64::prelude::BASE64_STANDARD.decode(&t).unwrap(), b);
}

#[test]
fn file_action_rules() {
    assert_eq!(file_action(Format::Png, Format::Png, false, false), FileAction::KeepBytes);
    assert_eq!(file_action(Format::Png, Format::Jpeg, false, false), FileAction::Reencode(Format::Jpeg));
    assert_eq!(file_action(Format::Png, Format::Jpeg, true, false), FileAction::KeepBytes);
    assert_eq!(file_action(Format::Gif, Format::Gif, false, true), FileAction::Reencode(Format::Gif));
    assert_eq!(file_action(Format::Png, Format::Jpeg, true, true), FileAction::Reencode(Format::Png));
}

fn png_file(w: u32, h: u32) -> Vec<u8> {
    to_binary(w, h, &pixels(w, h), &arg("png", None, None)).unwrap()
}

#[test]
fn file_in_same_format_comes_back_unchanged() {
    let f = png_file(20, 10);
    assert_eq!(convert_file(f.clone(), &arg("png", None, None)).unwrap(), f);
    let mut keep = arg("jpeg", None, None);
    keep.ignore_format = true;
    assert_eq!(convert_file(f.clone(), &keep).unwrap(), f);
}

#[test]
fn file_is_reencoded_and_resized() {
    let f = png_file(20, 10);
    let j = convert_file(f.clone(), &arg("jpg", None, None)).unwrap();
    assert_eq!(decoded(&j), (image::ImageFormat::Jpeg, 20, 10));
    let r = convert_file(f, &arg("png", Some(10), None)).unwrap();
    assert_eq!(decoded(&r), (image::ImageFormat::Png, 10, 5));
}

#[test]
fn file_that_is_no_image() {
    assert!(matches!(convert_file(vec![1, 2, 3, 4], &arg("png", None, None)), Err(ConvertError::NoImage)));
    assert!(matches!(file_image_text(Vec::new(), &arg("png", None, None)), Err(ConvertError::NoImage)));
}

#[test]
fn file_that_does_not_decode() {
    let mut f = png_file(4, 4);
    f.truncate(20);
    assert!(matches!(convert_file(f, &arg("png", None, None)), Err(ConvertError::Decode(_))));
}

#[test]
fn file_with_unknown_format_name() {
    let f = png_file(4, 4);
    assert!(matches!(convert_file(f.clone(), &arg("foo", None, None)), Err(ConvertError::UnknownFormat)));
    let mut keep = arg("foo", None, None);
    keep.ignore_format = true;
    assert!(matches!(file_image_text(f, &keep), Err(ConvertError::UnknownFormat)));
}

#[test]
fn file_resized_to_exact_plan() {
    let f = png_file(21, 10);
    let r = convert_file(f, &arg("png", Some(10), None)).unwrap();
    assert_eq!(decoded(&r), (image::ImageFormat::Png, 10, 4));
}

#[test]
fn file_to_jpeg_flattens_transparency() {
    let f = to_binary(2, 1, &[10, 20, 30, 0, 200, 100, 50, 7], &arg("png", None, None)).unwrap();
    let j = convert_file(f, &arg("jpeg", None, None)).unwrap();
    let img = image::load_from_memory(&j).unwrap().to_rgb8();
    assert_eq!(image::guess_format(&j).unwrap(), image::ImageFormat::Jpeg);
    assert!(img.get_pixel(0, 0).0.iter().all(|&c| c >= 200), "{:?}", img.get_pixel(0, 0).0);
}

#[test]
fn file_to_png_keeps_rgba() {
    let px = [10, 20, 30, 128, 200, 100, 50, 7];
    let f = to_binary(2, 1, &px, &arg("webp", None, None)).unwrap();
    let p = convert_file(f, &arg("png", None, None)).unwrap();
    assert_eq!(image::load_from_memory(&p).unwrap().to_rgba8().into_raw(), px.to_vec());
}

#[test]
fn encode_rgba_follows_plan() {
    let same = PlannedDimensions { width: 4, height: 2, scale_num: 1, scale_den: 1, resized: false };
    let b = encode_rgba(4, 2, &pixels(4, 2), Format::Gif, same).unwrap();
    assert_eq!(decoded(&b), (image::ImageFormat::Gif, 4, 2));
    let half = PlannedDimensions { width: 2, height: 1, scale_num: 1, scale_den: 2, resized: true };
    let c = encode_rgba(4, 2, &pixels(4, 2), Format::Bmp, half).unwrap();
    assert_eq!(decoded(&c), (image::ImageFormat::Bmp, 2, 1));
}

#[test]
fn file_text_is_base64() {
    let f = png_file(4, 4);
    let t = file_image_text(f.clone(), &arg("png", None, None)).unwrap();
    assert_eq!(base64::prelude::BASE64_STANDARD.decode(&t).unwrap(), f);
}

#[test]
fn codec_refusal_is_an_encode_error() {
    // 1000 x 1 under a width of 10 plans a height of zero, which no PNG can have
    let r = to_binary(1000, 1, &pixels(1000, 1), &arg("png", Some(10), None));
    assert!(matches!(r, Err(ConvertError::Encode(_))));
}
