//! Where a module's asset is looked for on the control node.
//!
//! A relative path is sought under a fixed subdirectory of the working
//! directory. An absolute path is taken as it stands once it has passed
//! screening: it is not confined to the subdirectory.

use vstd::prelude::*;

verus! {

/// Whether `path` is absolute: what `std::path::Path::is_absolute` answers for
/// its text on the platform that the library is built for.
pub uninterp spec fn absolute_path(path: Seq<char>) -> bool;

/// The path to probe, given whether the screened path is absolute: the
/// screened path itself when it is, else the path as written, under `prefix`.
pub open spec fn candidate_text(
    prefix: Seq<char>,
    screened: Seq<char>,
    raw: Seq<char>,
    absolute: bool,
) -> Seq<char> {
    if absolute {
        screened
    } else {
        prefix + "/"@ + raw
    }
}

/// The path that a lookup under `prefix` probes for the path `raw`, whose
/// screened form is `screened`.
pub open spec fn probed_text(prefix: Seq<char>, screened: Seq<char>, raw: Seq<char>) -> Seq<char> {
    candidate_text(prefix, screened, raw, absolute_path(screened))
}

/// Builds the path to probe for `raw`, whose screened form is `screened` and is
/// absolute or not as `absolute` says.
pub fn candidate(prefix: &str, screened: String, raw: &String, absolute: bool) -> (path: String)
    ensures
        path@ == candidate_text(prefix@, screened@, raw@, absolute),
{
    if absolute {
        screened
    } else {
        let mut path = String::from_str(prefix);
        path.append("/");
        path.append(raw.as_str());
        path
    }
}

/// `std::path::Path::is_absolute` for `path`. The answer is a matter of the
/// path's text alone; what it is for a given text is not stated here.
#[verifier::external_body]
pub(crate) fn is_absolute(path: &String) -> (absolute: bool)
    ensures
        absolute == absolute_path(path@),
{
    std::path::Path::new(path).is_absolute()
}

/// `std::path::Path::is_file` for `path`: whether a regular file is there now.
/// The answer depends on the disk, so nothing is claimed of it.
#[verifier::external_body]
pub(crate) fn is_file(path: &String) -> (present: bool) {
    std::path::Path::new(path).is_file()
}

} // verus!
