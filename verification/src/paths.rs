//! Default locations of the data files, as path strings.
//!
//! Only the platform's data directory comes from outside; the layout
//! beneath it — an application directory holding the options file and a
//! high scores directory — is this crate's own and is pinned by the
//! contracts.  The application layer turns these strings into real paths.
use vstd::prelude::*;
use vstd::string::StringExecFns;

verus! {

/// Does `s` end with `suffix`?
pub open spec fn spec_ends_with(s: Seq<char>, suffix: Seq<char>) -> bool {
    s.len() >= suffix.len() && s.subrange(s.len() - suffix.len(), s.len() as int) == suffix
}

/// Relies on dirs' `data_local_dir`, which looks the platform's local
/// data directory up in the environment; nothing can be promised of the
/// result, and a platform without such a directory yields `None`.
#[verifier::external_body]
fn local_data_dir() -> Option<String> {
    dirs::data_local_dir().and_then(|p| p.into_os_string().into_string().ok())
}

/// Append `suffix` to a directory path.
fn join_suffix(dir: String, suffix: &str) -> (r: String)
    ensures
        r@ == dir@ + suffix@,
        spec_ends_with(r@, suffix@),
{
    let r = dir.concat(suffix);
    proof {
        assert(r@.subrange(r@.len() - suffix@.len(), r@.len() as int) =~= suffix@);
    }
    r
}

/// The directory in which the game should store data files, or `None` if
/// the platform defines no data directory.
pub fn data_dir() -> (r: Option<String>)
    ensures
        r matches Some(s) ==> spec_ends_with(s@, "/ratsnake"@),
{
    match local_data_dir() {
        None => None,
        Some(dir) => Some(join_suffix(dir, "/ratsnake")),
    }
}

/// The default path of the file in which gameplay options are stored, or
/// `None` if the platform defines no data directory.
pub fn default_options_path() -> (r: Option<String>)
    ensures
        r matches Some(s) ==> spec_ends_with(s@, "/ratsnake/options.json"@),
{
    match local_data_dir() {
        None => None,
        Some(dir) => Some(join_suffix(dir, "/ratsnake/options.json")),
    }
}

/// The default path of the file in which high scores are stored, or
/// `None` if the platform defines no data directory.  The file sits in a
/// directory of its own, in anticipation of level high scores being
/// stored next to it one day.
pub fn high_scores_file_path() -> (r: Option<String>)
    ensures
        r matches Some(s) ==> spec_ends_with(s@, "/ratsnake/highscores/arcade.json"@),
{
    match local_data_dir() {
        None => None,
        Some(dir) => Some(join_suffix(dir, "/ratsnake/highscores/arcade.json")),
    }
}

} // verus!
