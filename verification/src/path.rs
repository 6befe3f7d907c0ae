//! Joining a path and taking its parent, as the standard library does both.
//!
//! Neither operation is modelled here: each result has a name, and the rest
//! of the library reasons about the names alone.

use vstd::prelude::*;

verus! {

/// What `std::path::Path::join` gives for `filename` adjoined to `directory`,
/// on the platform the library is built for.
pub uninterp spec fn joined(directory: Seq<char>, filename: Seq<char>) -> Seq<char>;

/// What `std::path::Path::parent` gives for `directory`, on the platform the
/// library is built for: the path without its final component, or `None`
/// where it ends in a root or prefix, or is empty.
pub uninterp spec fn parent_of(directory: Seq<char>) -> Option<Seq<char>>;

/// Calls `std::path::Path::join`. Trusted: the result is the one named
/// `joined`. Both arguments are valid Unicode, so the joined path is too, and
/// turning it back into text changes nothing.
#[verifier::external_body]
pub(crate) fn join(directory: &str, filename: &str) -> (path: String)
    ensures
        path@ == joined(directory@, filename@),
{
    std::path::Path::new(directory).join(filename).to_string_lossy().into_owned()
}

/// Calls `std::path::Path::parent`. Trusted: the result is the one named
/// `parent_of`. A parent is a leading part of the path it was taken from,
/// cut at a separator, so it is valid Unicode as well.
#[verifier::external_body]
pub(crate) fn parent(directory: &str) -> (up: Option<String>)
    ensures
        up.deep_view() == parent_of(directory@),
{
    match std::path::Path::new(directory).parent() {
        Some(up) => Some(up.to_string_lossy().into_owned()),
        None => None,
    }
}

} // verus!
