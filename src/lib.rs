//! Turns an RGBA pixel buffer, or the bytes of an image file, into the bytes
//! of an image in a chosen raster format, and those into base64 text: the
//! bounding-box resize plan, the alpha flattening rule, the format names and
//! the encoding pipeline.

pub mod encode;
pub mod file;
pub mod format;
pub mod output;
pub mod pixels;
pub mod plan;

pub use encode::{encode_rgba, to_binary, ConvertError};
pub use file::{convert_file, file_action, FileAction};
pub use format::{get_format, Format};
pub use output::{clipboard_image_text, file_image_text};
pub use pixels::flatten_alpha;
pub use plan::{Arg, PlannedDimensions};
