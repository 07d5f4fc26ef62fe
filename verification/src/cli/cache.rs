//! Where baked color/depth pairs are stored.

use vstd::prelude::*;

use crate::digest::{content_hash, blake3_digest, spec_hex_lower};
use crate::dirs::{plain_app_name, project_dirs};
use crate::paths::{ends_with, join_path, spec_join};
use crate::pixels::{image_rgba8, rgba_from_bytes, DecodedImage};

verus! {

/// Paths for a baked wallpaper pair.
pub struct BakedPaths {
    pub color: String,
    pub depth: String,
}

/// The cache directory, given the project cache directory that the
/// platform reports (if any).
pub open spec fn spec_cache_dir_for(project_cache: Option<Seq<char>>) -> Seq<char> {
    match project_cache {
        Some(d) => spec_join(d, "wallpapers"@),
        None => "/tmp/depthpaper-cache/wallpapers"@,
    }
}

/// `<project cache dir>/wallpapers`, or a fixed directory under `/tmp`
/// when the platform reports no home directory.
pub fn cache_dir_for(project_cache: Option<&str>) -> (r: String)
    ensures
        r@ == spec_cache_dir_for(crate::paths::opt_view(project_cache)),
{
    match project_cache {
        Some(d) => join_path(d, "wallpapers"),
        None => "/tmp/depthpaper-cache/wallpapers".to_owned(),
    }
}

/// Default cache directory: `~/.cache/shiftpaper/wallpapers/`. The
/// project cache directory comes from the environment; whatever it is, it
/// ends in `/shiftpaper`.
pub fn cache_dir() -> (r: String)
    ensures
        exists|p: Option<Seq<char>>| r@ == #[trigger] spec_cache_dir_for(p)
            && (p matches Some(c) ==> ends_with(c, seq!['/'] + "shiftpaper"@)),
{
    let app = "shiftpaper";
    proof {
        reveal_strlit("shiftpaper");
        assert(plain_app_name(app@)) by {
            assert forall|i: int| 0 <= i < app@.len() implies 'a' <= #[trigger] app@[i] <= 'z' by {}
        }
    }
    let dirs = project_dirs("", "", app);
    match &dirs {
        Some((c, _)) => {
            let r = cache_dir_for(Some(c.as_str()));
            assert(r@ == spec_cache_dir_for(Some(c@)));
            r
        },
        None => {
            let r = cache_dir_for(None);
            assert(r@ == spec_cache_dir_for(None));
            r
        },
    }
}

/// BLAKE3 of the decoded RGBA bytes, in lowercase hex. Repeat bakes of the
/// same image content get the same file names.
pub fn hash_source(rgba: &[u8]) -> (r: String)
    ensures
        r@ == spec_hex_lower(blake3_digest(rgba@)),
        r@.len() == 64,
{
    content_hash(rgba)
}

/// Decodes the source image file at `path` (contents `file`) to RGBA and hashes its pixels: the pixels
/// and their name in the cache, or `None` when the file cannot be decoded.
pub fn hash_source_bytes(path: &str, file: &[u8]) -> (r: Option<(DecodedImage, String)>)
    ensures
        match r {
            Some((img, hash)) => image_rgba8(path@, file@) == Some((img.width, img.height, img.data@))
                && hash@ == spec_hex_lower(blake3_digest(img.data@))
                && hash@.len() == 64,
            None => image_rgba8(path@, file@) is None,
        },
{
    match rgba_from_bytes(path, file) {
        Some(img) => {
            let hash = hash_source(img.data.as_slice());
            Some((img, hash))
        },
        None => None,
    }
}

/// The file name of the color half of a pair.
pub open spec fn color_file_name(hash: Seq<char>) -> Seq<char> {
    hash + ".color.png"@
}

/// The file name of the depth half of a pair.
pub open spec fn depth_file_name(hash: Seq<char>) -> Seq<char> {
    hash + ".depth16.png"@
}

/// The color and depth paths for `hash` in `base`.
pub fn paths_for(hash: &str, base: &str) -> (r: BakedPaths)
    ensures
        r.color@ == spec_join(base@, color_file_name(hash@)),
        r.depth@ == spec_join(base@, depth_file_name(hash@)),
{
    let color_name = String::from_str(hash).concat(".color.png");
    let depth_name = String::from_str(hash).concat(".depth16.png");
    BakedPaths { color: join_path(base, color_name.as_str()), depth: join_path(base, depth_name.as_str()) }
}

} // verus!
