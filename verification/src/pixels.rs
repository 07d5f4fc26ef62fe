//! Decoded image pixels, as the `image` crate reads an encoded file.

use vstd::prelude::*;

verus! {

/// What `image::open` makes of the file at `path` holding `file`, converted
/// to 16-bit grayscale: `None` when the format that the path's extension
/// names cannot decode the bytes (or names none), else the width, the
/// height and the samples in row-major order.
pub uninterp spec fn image_luma16(path: Seq<char>, file: Seq<u8>) -> Option<(u32, u32, Seq<u16>)>;

/// What `image::open` makes of the file at `path` holding `file`, converted
/// to RGBA with eight bits per channel: `None` when the format that the
/// path's extension names cannot decode the bytes (or names none), else the
/// width, the height and the channel bytes in row-major order.
pub uninterp spec fn image_rgba8(path: Seq<char>, file: Seq<u8>) -> Option<(u32, u32, Seq<u8>)>;

/// Calls `image::ImageFormat::from_path`, then `ImageReader::with_format`
/// and `decode` on the bytes, as `image::open` does with the file's
/// contents, then `DynamicImage::to_luma16`. The contract claims that the
/// outcome is the value named `image_luma16` of the path and the bytes,
/// and that the buffer holds one sample per pixel.
#[verifier::external_body]
pub(crate) fn decode_luma16(path: &str, file: &[u8]) -> (r: Option<(u32, u32, Vec<u16>)>)
    ensures
        match r {
            Some((w, h, d)) => image_luma16(path@, file@) == Some((w, h, d@)) && d@.len() == w * h,
            None => image_luma16(path@, file@) is None,
        },
{
    let format = match image::ImageFormat::from_path(path) {
        Ok(f) => f,
        Err(_) => return None,
    };
    match image::ImageReader::with_format(std::io::Cursor::new(file), format).decode() {
        Ok(img) => {
            let l = img.to_luma16();
            Some((l.width(), l.height(), l.into_raw()))
        },
        Err(_) => None,
    }
}

/// Calls `image::ImageFormat::from_path`, then `ImageReader::with_format`
/// and `decode` on the bytes, as `image::open` does with the file's
/// contents, then `DynamicImage::to_rgba8`. The contract claims that the
/// outcome is the value named `image_rgba8` of the path and the bytes, and
/// that the buffer holds four bytes per pixel.
#[verifier::external_body]
pub(crate) fn decode_rgba8(path: &str, file: &[u8]) -> (r: Option<(u32, u32, Vec<u8>)>)
    ensures
        match r {
            Some((w, h, d)) => image_rgba8(path@, file@) == Some((w, h, d@)) && d@.len() == 4 * w * h,
            None => image_rgba8(path@, file@) is None,
        },
{
    let format = match image::ImageFormat::from_path(path) {
        Ok(f) => f,
        Err(_) => return None,
    };
    match image::ImageReader::with_format(std::io::Cursor::new(file), format).decode() {
        Ok(img) => {
            let p = img.to_rgba8();
            Some((p.width(), p.height(), p.into_raw()))
        },
        Err(_) => None,
    }
}

/// An RGBA image with eight bits per channel.
pub struct DecodedImage {
    pub width: u32,
    pub height: u32,
    /// Row-major, four bytes per pixel.
    pub data: Vec<u8>,
}

/// The RGBA pixels of the image file at `path`, whose contents are `file`,
/// or `None` when it cannot be decoded.
pub fn rgba_from_bytes(path: &str, file: &[u8]) -> (r: Option<DecodedImage>)
    ensures
        match r {
            Some(i) => image_rgba8(path@, file@) == Some((i.width, i.height, i.data@))
                && i.data@.len() == 4 * i.width * i.height,
            None => image_rgba8(path@, file@) is None,
        },
{
    match decode_rgba8(path, file) {
        Some((width, height, data)) => Some(DecodedImage { width, height, data }),
        None => None,
    }
}

} // verus!
