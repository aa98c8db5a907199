//! Paths as text, joined and taken apart by the standard library.
//!
//! A path is held as a `String`. What `std::path` makes of it is not written
//! out here: each operation has a name, and the function that performs it
//! promises that name's value.

use std::path::Path;
use vstd::prelude::*;

verus! {

/// The path that `Path::join` builds from `base` and `part`, in the path syntax
/// of the platform that the library is built for.
pub uninterp spec fn path_join(base: Seq<char>, part: Seq<char>) -> Seq<char>;

/// The path that `Path::parent` finds for `path`: the path without its last
/// component, or nothing where `path` ends in a root or is empty.
pub uninterp spec fn path_parent(path: Seq<char>) -> Option<Seq<char>>;

/// The name that `Path::file_name` finds for `path`: its last component where
/// that is a normal one, or nothing where the path ends in `..` or is a root.
pub uninterp spec fn path_file_name(path: Seq<char>) -> Option<Seq<char>>;

/// Calls `std::path::Path::join`. Joining is a matter of syntax alone, so the
/// result is `path_join` of the two texts; both are UTF-8, and so is the result.
#[verifier::external_body]
pub(crate) fn join(base: &str, part: &str) -> (r: String)
    ensures
        r@ == path_join(base@, part@),
{
    Path::new(base).join(part).to_string_lossy().into_owned()
}

/// Calls `std::path::Path::parent`, which reads nothing but the text of the
/// path: the result is `path_parent` of it.
#[verifier::external_body]
pub(crate) fn parent(path: &str) -> (r: Option<String>)
    ensures
        r is Some <==> path_parent(path@) is Some,
        r matches Some(p) ==> path_parent(path@) == Some(p@),
{
    match Path::new(path).parent() {
        Some(p) => Some(p.to_string_lossy().into_owned()),
        None => None,
    }
}

/// Calls `std::path::Path::file_name`, which reads nothing but the text of the
/// path: the result is `path_file_name` of it.
#[verifier::external_body]
pub(crate) fn file_name(path: &str) -> (r: Option<String>)
    ensures
        r is Some <==> path_file_name(path@) is Some,
        r matches Some(name) ==> path_file_name(path@) == Some(name@),
{
    match Path::new(path).file_name() {
        Some(name) => Some(name.to_string_lossy().into_owned()),
        None => None,
    }
}

} // verus!
