//! Where the depth model is kept, and recording its path in the config.

use vstd::prelude::*;

use crate::dirs::{plain_app_name, project_dirs};
use crate::paths::{ends_with, join_path, opt_view, spec_join, spec_with_extension, with_extension};

verus! {

/// Where `fetch-model` downloads the default model from.
pub const DEFAULT_MODEL_URL: &'static str =
    "https://huggingface.co/onnx-community/depth-anything-v2-small/resolve/main/onnx/model.onnx";

/// The file name of the downloaded default model.
pub const DEFAULT_MODEL_FILENAME: &'static str = "depth_anything_v2_small.onnx";

/// The models directory, given the project local-data directory that the
/// platform reports (if any) and `$HOME`.
pub open spec fn spec_models_dir_for(project_data_local: Option<Seq<char>>, home: Option<Seq<char>>) -> Seq<char> {
    match project_data_local {
        Some(d) => spec_join(d, "models"@),
        None => spec_join(
            match home {
                Some(h) => h,
                None => Seq::<char>::empty(),
            },
            ".local/share/shiftpaper/models"@,
        ),
    }
}

/// `<project local data dir>/models`, or `$HOME/.local/share/shiftpaper/models`
/// (with an empty home when `$HOME` is unset) when the platform reports no
/// home directory.
pub fn models_dir_for(project_data_local: Option<&str>, home: Option<&str>) -> (r: String)
    ensures
        r@ == spec_models_dir_for(opt_view(project_data_local), opt_view(home)),
{
    match project_data_local {
        Some(d) => join_path(d, "models"),
        None => {
            let h = match home {
                Some(h) => h,
                None => "",
            };
            proof {
                reveal_strlit("");
            }
            join_path(h, ".local/share/shiftpaper/models")
        },
    }
}

/// The models directory: `~/.local/share/shiftpaper/models`. The project
/// local-data directory comes from the environment; whatever it is, it
/// ends in `/shiftpaper`.
pub fn models_dir(home: Option<&str>) -> (r: String)
    ensures
        exists|p: Option<Seq<char>>| r@ == #[trigger] spec_models_dir_for(p, opt_view(home))
            && (p matches Some(l) ==> ends_with(l, seq!['/'] + "shiftpaper"@)),
{
    let app = "shiftpaper";
    proof {
        reveal_strlit("shiftpaper");
        assert(plain_app_name(app@)) by {
            assert forall|i: int| 0 <= i < app@.len() implies 'a' <= #[trigger] app@[i] <= 'z' by {}
        }
    }
    let dirs = project_dirs("", "", app);
    match &dirs {
        Some((_, l)) => {
            let r = models_dir_for(Some(l.as_str()), home);
            assert(r@ == spec_models_dir_for(Some(l@), opt_view(home)));
            r
        },
        None => {
            let r = models_dir_for(None, home);
            assert(r@ == spec_models_dir_for(None, opt_view(home)));
            r
        },
    }
}

/// Where the downloaded default model goes.
pub fn default_model_path(home: Option<&str>) -> (r: String)
    ensures
        exists|p: Option<Seq<char>>| r@ == spec_join(
            #[trigger] spec_models_dir_for(p, opt_view(home)),
            DEFAULT_MODEL_FILENAME@,
        ) && (p matches Some(l) ==> ends_with(l, seq!['/'] + "shiftpaper"@)),
{
    let dir = models_dir(home);
    join_path(dir.as_str(), DEFAULT_MODEL_FILENAME)
}

/// What `fetch-model` does for a destination.
pub enum FetchPlan {
    /// The model is already there and no re-download is forced.
    AlreadyPresent,
    /// Download into `part_path` beside the destination, then rename it
    /// into place, so that a failed download never leaves a file that
    /// passes the existence check.
    Download { part_path: String },
}

/// Skip when the model exists and `force` is off; otherwise download via
/// `<dest>` with its extension replaced by `onnx.part`.
pub fn fetch_plan(dest: &str, dest_exists: bool, force: bool) -> (r: FetchPlan)
    ensures
        dest_exists && !force ==> r is AlreadyPresent,
        !(dest_exists && !force) ==> (r matches FetchPlan::Download { part_path }
            && part_path@ == spec_with_extension(dest@, "onnx.part"@)),
{
    if dest_exists && !force {
        return FetchPlan::AlreadyPresent;
    }
    let ext = "onnx.part";
    proof {
        reveal_strlit("onnx.part");
        assert(!ext@.contains('/')) by {
            assert forall|i: int| 0 <= i < ext@.len() implies ext@[i] != '/' by {}
        }
    }
    FetchPlan::Download { part_path: with_extension(dest, ext) }
}

} // verus!
