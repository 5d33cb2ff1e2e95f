//! Questions about paths on disk, answered by the standard library.
use vstd::prelude::*;

verus! {

/// The directory that holds `path`, as `std::path::Path::parent` computes it
/// from the text of the path.
pub uninterp spec fn parent_of(path: Seq<char>) -> Option<Seq<char>>;

pub open spec fn opt_view(o: Option<String>) -> Option<Seq<char>> {
    match o {
        Some(s) => Some(s@),
        None => None,
    }
}

/// Whether `parent` can be the directory of `path`: it is shorter.
pub open spec fn parent_fits(path: Seq<char>, parent: Option<Seq<char>>) -> bool {
    match parent {
        Some(d) => d.len() < path.len(),
        None => true,
    }
}

/// Relies on std::path::Path::parent: the path without its final component
/// (so a shorter one), none for an empty path; a function of the path's text
/// alone.
#[verifier::external_body]
pub(crate) fn parent_dir(path: &str) -> (r: Option<String>)
    ensures
        opt_view(r) == parent_of(path@),
        parent_fits(path@, opt_view(r)),
        path@.len() == 0 ==> r is None,
{
    match std::path::Path::new(path).parent() {
        Some(d) => Some(d.to_string_lossy().into_owned()),
        None => None,
    }
}

/// Relies on std::path::Path::exists: whether an entry exists at `path` at
/// the time of the call. Nothing is known of the answer beforehand.
#[verifier::external_body]
fn path_exists(path: &str) -> (r: bool) {
    std::path::Path::new(path).exists()
}

/// Whether something exists at `file` right now.
pub fn check_file_exists(file: &str) -> (r: bool) {
    path_exists(file)
}

} // verus!
