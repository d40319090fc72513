//! The directory an output file is written into.

use vstd::prelude::*;

verus! {

/// What `std::path::Path::parent` returns for the path written as `path`, in the
/// path syntax of the platform the crate is built for: the path without its
/// last component, or `None` for a path that ends in a root or is empty.
pub uninterp spec fn path_parent(path: Seq<char>) -> Option<Seq<char>>;

/// `Path::parent`, from text to text. The parent of a path given as text is a
/// leading part of that text, so it is text again and nothing is lost on the
/// way back. The empty path has no parent.
#[verifier::external_body]
fn parent_of(path: &str) -> (parent: Option<String>)
    ensures
        parent.deep_view() == path_parent(path@),
        path@.len() == 0 ==> parent is None,
{
    std::path::Path::new(path).parent().map(|dir| dir.to_string_lossy().into_owned())
}

/// The directory named by a parent path: the parent itself, unless there is
/// none or it is empty, as it is for a bare file name.
pub open spec fn spec_named_directory(parent: Option<Seq<char>>) -> Option<Seq<char>> {
    match parent {
        Some(dir) => if dir.len() > 0 {
            Some(dir)
        } else {
            None
        },
        None => None,
    }
}

/// The directory part of `path`, if it names one.
pub open spec fn spec_directory(path: Seq<char>) -> Option<Seq<char>> {
    spec_named_directory(path_parent(path))
}

/// The directory named by `parent`, the parent of some path.
pub fn named_directory(parent: Option<String>) -> (dir: Option<String>)
    ensures
        dir.deep_view() == spec_named_directory(parent.deep_view()),
{
    match parent {
        Some(dir) => if dir.as_str().is_empty() {
            None
        } else {
            Some(dir)
        },
        None => None,
    }
}

/// The directory part of `path`: `None` for a bare file name, for a root and
/// for the empty path.
pub fn directory_of(path: &str) -> (dir: Option<String>)
    ensures
        dir.deep_view() == spec_directory(path@),
        path@.len() == 0 ==> dir is None,
{
    named_directory(parent_of(path))
}

} // verus!
