//! The standard library's path operations that the naming rules build on.
//!
//! What these return depends on the platform's path syntax, so each result is
//! given a name here and the rules speak of that name.
use vstd::prelude::*;

verus! {

pub uninterp spec fn parent_of(p: Seq<char>) -> Option<Seq<char>>;

pub uninterp spec fn file_stem_of(p: Seq<char>) -> Option<Seq<char>>;

pub uninterp spec fn file_name_of(p: Seq<char>) -> Option<Seq<char>>;

pub uninterp spec fn joined(base: Seq<char>, rest: Seq<char>) -> Seq<char>;

pub uninterp spec fn is_absolute_path(p: Seq<char>) -> bool;

/// Relies on `std::path::Path::parent`: the path without its final component,
/// or nothing for a root, a prefix or the empty path.
#[verifier::external_body]
pub(crate) fn path_parent(p: &str) -> (r: Option<String>)
    ensures
        r is Some <==> parent_of(p@) is Some,
        r is Some ==> r->0@ == parent_of(p@)->0,
        p@.len() == 0 ==> r is None,
{
    match std::path::Path::new(p).parent() {
        Some(q) => Some(q.to_string_lossy().into_owned()),
        None => None,
    }
}

/// Relies on `std::path::Path::file_stem`: the final component without its
/// last extension, or nothing where the path has no final component.
#[verifier::external_body]
pub(crate) fn path_file_stem(p: &str) -> (r: Option<String>)
    ensures
        r is Some <==> file_stem_of(p@) is Some,
        r is Some ==> r->0@ == file_stem_of(p@)->0,
        p@.len() == 0 ==> r is None,
{
    match std::path::Path::new(p).file_stem() {
        Some(q) => Some(q.to_string_lossy().into_owned()),
        None => None,
    }
}

/// Relies on `std::path::Path::file_name`: the final component, or nothing
/// where the path ends in `..` or is a root.
#[verifier::external_body]
pub(crate) fn path_file_name(p: &str) -> (r: Option<String>)
    ensures
        r is Some <==> file_name_of(p@) is Some,
        r is Some ==> r->0@ == file_name_of(p@)->0,
        p@.len() == 0 ==> r is None,
{
    match std::path::Path::new(p).file_name() {
        Some(q) => Some(q.to_string_lossy().into_owned()),
        None => None,
    }
}

/// Relies on `std::path::Path::join`: `rest` placed below `base`, or `rest`
/// alone where it is absolute.
#[verifier::external_body]
pub(crate) fn path_join(base: &str, rest: &str) -> (r: String)
    ensures
        r@ == joined(base@, rest@),
{
    std::path::Path::new(base).join(rest).to_string_lossy().into_owned()
}

/// Relies on `std::path::Path::is_absolute`: whether the path does not depend
/// on the current directory.
#[verifier::external_body]
pub(crate) fn path_is_absolute(p: &str) -> (r: bool)
    ensures
        r == is_absolute_path(p@),
{
    std::path::Path::new(p).is_absolute()
}

} // verus!
