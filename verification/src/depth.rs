//! The first-generation daemon's on-disk cache of computed depth maps.

use vstd::prelude::*;

use crate::digest::{blake3_digest, content_hash, spec_hex_lower};
use crate::dirs::{plain_app_name, project_dirs};
use crate::pixels::{image_rgba8, rgba_from_bytes, DecodedImage};
use crate::paths::{ends_with, join_path, opt_view, spec_join, str_eq};

verus! {

/// The model whose output the cache holds; a cache from another model is
/// stale.
pub const MODEL_VERSION: &'static str = "midas-v2.1-small";

/// Cache metadata stored alongside the raw depth data.
pub struct CacheMeta {
    pub width: u32,
    pub height: u32,
    pub model_version: String,
    pub source_hash: String,
}

/// The depth cache directory, given the project cache directory that the
/// platform reports (if any).
pub open spec fn spec_depth_cache_dir_for(project_cache: Option<Seq<char>>) -> Seq<char> {
    match project_cache {
        Some(d) => d,
        None => "/tmp/depthpaper-cache"@,
    }
}

/// The project cache directory itself, or a fixed directory under `/tmp`
/// when the platform reports no home directory.
pub fn depth_cache_dir_for(project_cache: Option<&str>) -> (r: String)
    ensures
        r@ == spec_depth_cache_dir_for(opt_view(project_cache)),
{
    match project_cache {
        Some(d) => d.to_owned(),
        None => "/tmp/depthpaper-cache".to_owned(),
    }
}

/// The depth cache directory: the project cache directory, which comes
/// from the environment and, whatever it is, ends in `/depthpaper`.
pub fn cache_dir() -> (r: String)
    ensures
        exists|p: Option<Seq<char>>| r@ == #[trigger] spec_depth_cache_dir_for(p)
            && (p matches Some(c) ==> ends_with(c, seq!['/'] + "depthpaper"@)),
{
    let app = "depthpaper";
    proof {
        reveal_strlit("depthpaper");
        assert(plain_app_name(app@)) by {
            assert forall|i: int| 0 <= i < app@.len() implies 'a' <= #[trigger] app@[i] <= 'z' by {}
        }
    }
    let dirs = project_dirs("", "", app);
    match &dirs {
        Some((c, _)) => {
            let r = depth_cache_dir_for(Some(c.as_str()));
            assert(r@ == spec_depth_cache_dir_for(Some(c@)));
            r
        },
        None => {
            let r = depth_cache_dir_for(None);
            assert(r@ == spec_depth_cache_dir_for(None));
            r
        },
    }
}

/// The data and metadata files for `source_hash` in `dir`.
pub open spec fn spec_cache_paths_in(dir: Seq<char>, source_hash: Seq<char>) -> (Seq<char>, Seq<char>) {
    (spec_join(dir, source_hash + ".depth"@), spec_join(dir, source_hash + ".json"@))
}

/// The data and metadata files for `source_hash` in the cache directory.
pub fn cache_paths(source_hash: &str) -> (r: (String, String))
    ensures
        exists|p: Option<Seq<char>>| (r.0@, r.1@) == spec_cache_paths_in(#[trigger] spec_depth_cache_dir_for(p), source_hash@)
            && (p matches Some(c) ==> ends_with(c, seq!['/'] + "depthpaper"@)),
{
    let dir = cache_dir();
    let data_name = String::from_str(source_hash).concat(".depth");
    let meta_name = String::from_str(source_hash).concat(".json");
    (join_path(dir.as_str(), data_name.as_str()), join_path(dir.as_str(), meta_name.as_str()))
}

/// BLAKE3 of the decoded RGBA bytes, in lowercase hex.
pub fn hash_image_bytes(rgba: &[u8]) -> (r: String)
    ensures
        r@ == spec_hex_lower(blake3_digest(rgba@)),
        r@.len() == 64,
{
    content_hash(rgba)
}

/// Decodes the wallpaper file at `path` (contents `file`) to RGBA and hashes its pixels: the pixels and
/// the key of their cache entry, or `None` when the file cannot be decoded.
pub fn wallpaper_pixels(path: &str, file: &[u8]) -> (r: Option<(DecodedImage, String)>)
    ensures
        match r {
            Some((img, hash)) => image_rgba8(path@, file@) == Some((img.width, img.height, img.data@))
                && hash@ == spec_hex_lower(blake3_digest(img.data@)),
            None => image_rgba8(path@, file@) is None,
        },
{
    match rgba_from_bytes(path, file) {
        Some(img) => {
            let hash = hash_image_bytes(img.data.as_slice());
            Some((img, hash))
        },
        None => None,
    }
}

/// Whether cached metadata describes a depth map of the expected size from
/// the current model.
pub open spec fn spec_meta_matches(meta: CacheMeta, expected_w: u32, expected_h: u32) -> bool {
    meta.width == expected_w && meta.height == expected_h && meta.model_version@ == MODEL_VERSION@
}

/// Whether cached metadata describes a depth map of the expected size from
/// the current model.
pub fn cache_meta_matches(meta: &CacheMeta, expected_w: u32, expected_h: u32) -> (r: bool)
    ensures
        r == spec_meta_matches(*meta, expected_w, expected_h),
{
    meta.width == expected_w && meta.height == expected_h && str_eq(meta.model_version.as_str(), MODEL_VERSION)
}

/// The byte length of a cached `w`×`h` map of 4-byte values.
pub fn cache_data_len(expected_w: u32, expected_h: u32) -> (r: usize)
    requires
        expected_w * expected_h <= u32::MAX,
        expected_w * expected_h * 4 <= usize::MAX,
    ensures
        r == expected_w * expected_h * 4,
{
    let pixels = expected_w * expected_h;
    (pixels as usize) * 4
}

/// The metadata recorded for a freshly computed `width`×`height` map.
pub fn cache_meta_for(source_hash: &str, width: u32, height: u32) -> (r: CacheMeta)
    ensures
        r.width == width,
        r.height == height,
        r.model_version@ == MODEL_VERSION@,
        r.source_hash@ == source_hash@,
        spec_meta_matches(r, width, height),
{
    CacheMeta {
        width,
        height,
        model_version: MODEL_VERSION.to_owned(),
        source_hash: source_hash.to_owned(),
    }
}

} // verus!
