//! Per-user project directories, as the `directories` crate finds them.

use vstd::prelude::*;

use crate::paths::ends_with;

verus! {

/// An application name that `directories` takes over unchanged as the
/// project path: non-empty lowercase ASCII letters.
pub open spec fn plain_app_name(application: Seq<char>) -> bool {
    &&& application.len() > 0
    &&& forall|i: int| 0 <= i < application.len() ==> 'a' <= #[trigger] application[i] <= 'z'
}

/// Calls `directories::ProjectDirs::from` and, when it finds a home
/// directory, the project's `cache_dir` and `data_local_dir`, as strings.
/// Which base directories these are depends on `$HOME` and the XDG
/// variables, so only what holds of every outcome is claimed: on Linux
/// each is a base directory joined with the project path, which for such
/// a name is the name itself, so both end in `/` followed by the name.
#[verifier::external_body]
pub(crate) fn project_dirs(qualifier: &str, organization: &str, application: &str) -> (r: Option<(String, String)>)
    requires
        plain_app_name(application@),
    ensures
        match r {
            Some((cache, data_local)) => ends_with(cache@, seq!['/'] + application@)
                && ends_with(data_local@, seq!['/'] + application@),
            None => true,
        },
{
    match directories::ProjectDirs::from(qualifier, organization, application) {
        Some(d) => Some((
            d.cache_dir().to_string_lossy().into_owned(),
            d.data_local_dir().to_string_lossy().into_owned(),
        )),
        None => None,
    }
}

} // verus!
