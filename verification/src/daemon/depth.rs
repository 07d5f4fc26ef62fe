//! Baked depth maps as the daemon loads them.

use vstd::prelude::*;

use crate::pixels::{decode_luma16, image_luma16};

verus! {

/// Depth map at the wallpaper's native resolution. Values are u16
/// normalized; the GPU treats them as [0.0, 1.0] via R16Unorm.
pub struct DepthMap {
    pub data: Vec<u16>,
    pub width: u32,
    pub height: u32,
}

/// The depth map that the 16-bit grayscale image file at `path`, whose
/// contents are `file`, holds, or `None` when it cannot be decoded.
pub fn depth_map_from_bytes(path: &str, file: &[u8]) -> (r: Option<DepthMap>)
    ensures
        match r {
            Some(m) => image_luma16(path@, file@) == Some((m.width, m.height, m.data@))
                && m.data@.len() == m.width * m.height,
            None => image_luma16(path@, file@) is None,
        },
{
    match decode_luma16(path, file) {
        Some((width, height, data)) => Some(DepthMap { data, width, height }),
        None => None,
    }
}

} // verus!
