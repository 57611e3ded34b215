//! Paths made relative to a base directory, as `pathdiff` computes them.
use vstd::prelude::*;

verus! {

/// What `pathdiff::diff_paths` gives for `path` made relative to `base`, as text: `None`
/// where `path` is relative and `base` absolute, or where `base` climbs out with `..`
/// before the two part. It depends on the two texts alone (and on the target's path rules).
pub uninterp spec fn diffed_path(path: Seq<char>, base: Seq<char>) -> Option<Seq<char>>;

/// `pathdiff::diff_paths` on two paths given as text, the result read back as text. Its
/// result is named `diffed_path`, with nothing said of what it is.
#[verifier::external_body]
pub(crate) fn relative_path(path: &str, base: &str) -> (r: Option<String>)
    ensures
        match r {
            Some(s) => diffed_path(path@, base@) == Some(s@),
            None => diffed_path(path@, base@) is None,
        },
{
    pathdiff::diff_paths(path, base).map(|p| p.to_string_lossy().into_owned())
}

} // verus!
