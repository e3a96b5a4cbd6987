//! The install root: a directory under the user's home (or, when the
//! platform reports none, under a caller-supplied fallback such as the
//! system temporary directory).

use vstd::prelude::*;
use crate::text::{join_path, path_join};

verus! {

/// The install root under a base directory: `<base>/.browseros`.
pub open spec fn home_root_of(base: Seq<char>) -> Seq<char> {
    path_join(base, ".browseros"@)
}

/// Relies on dirs::home_dir: the user's home directory, if the platform
/// reports one. The answer depends on the environment, so nothing is
/// promised of the value; callers decide from whatever comes back.
#[verifier::external_body]
fn query_home_dir() -> (r: Option<String>)
{
    dirs::home_dir().map(|p| p.to_string_lossy().into_owned())
}

/// The install root given an already-known home directory: `.browseros`
/// under `home` when one is reported, under `fallback` otherwise.
pub fn browseros_home(home: Option<String>, fallback: &str) -> (r: String)
    ensures
        home matches Some(h) ==> r@ == home_root_of(h@),
        home is None ==> r@ == home_root_of(fallback@),
{
    match home {
        Some(h) => join_path(h.as_str(), ".browseros"),
        None => join_path(fallback, ".browseros"),
    }
}

/// The install root for this run, asking the system for the home
/// directory. Whatever the system answers, the result is `.browseros`
/// under some base directory, and under `fallback` when no home
/// directory is reported.
pub fn browseros_home_from_system(fallback: &str) -> (r: String)
    ensures
        r@ == home_root_of(fallback@) || exists|h: Seq<char>| r@ == home_root_of(h),
{
    let home = query_home_dir();
    let ghost asked: Option<String> = home;
    let r = browseros_home(home, fallback);
    proof {
        match asked {
            Some(h) => {
                assert(r@ == home_root_of(h@));
            },
            None => {
                assert(r@ == home_root_of(fallback@));
            },
        }
    }
    r
}

} // verus!
