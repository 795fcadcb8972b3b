//! File system paths, held as strings, and the operations of `std::path` that
//! the session needs on them.

use vstd::prelude::*;

verus! {

/// The path `Path::push` makes of `dir` and `name`.
pub uninterp spec fn path_joined(dir: Seq<char>, name: Seq<char>) -> Seq<char>;

/// The parent `Path::parent` gives of `p`, if it has one.
pub uninterp spec fn path_parent(p: Seq<char>) -> Option<Seq<char>>;

/// The path `PathBuf::set_file_name` makes of `p` with the file name `name`.
pub uninterp spec fn path_renamed(p: Seq<char>, name: Seq<char>) -> Seq<char>;

/// Whether `Path::starts_with` finds `base` to be a leading run of components of `p`.
pub uninterp spec fn path_within(p: Seq<char>, base: Seq<char>) -> bool;

/// The last component `Path::file_name` gives of `p`, if it has one.
pub uninterp spec fn path_file_name(p: Seq<char>) -> Option<Seq<char>>;

/// Relies on `PathBuf::push`: `name` appended to `dir` as a new component.
#[verifier::external_body]
pub(crate) fn join_path(dir: &str, name: &str) -> (r: String)
    ensures
        r@ == path_joined(dir@, name@),
{
    let mut p = std::path::PathBuf::from(dir);
    p.push(name);
    p.to_string_lossy().into_owned()
}

/// Relies on `Path::parent`: `p` without its last component, if it has one.
#[verifier::external_body]
pub(crate) fn parent_path(p: &str) -> (r: Option<String>)
    ensures
        match r {
            Some(q) => path_parent(p@) == Some(q@),
            None => path_parent(p@) is None,
        },
{
    match std::path::Path::new(p).parent() {
        Some(q) => Some(q.to_string_lossy().into_owned()),
        None => None,
    }
}

/// Relies on `PathBuf::set_file_name`: `p` with its last component replaced by `name`.
#[verifier::external_body]
pub(crate) fn renamed_path(p: &str, name: &str) -> (r: String)
    ensures
        r@ == path_renamed(p@, name@),
{
    let mut b = std::path::PathBuf::from(p);
    b.set_file_name(name);
    b.to_string_lossy().into_owned()
}

/// Relies on `Path::starts_with`: whether `base` is a prefix of `p`, component by component.
#[verifier::external_body]
pub(crate) fn is_within(p: &str, base: &str) -> (r: bool)
    ensures
        r == path_within(p@, base@),
{
    std::path::Path::new(p).starts_with(base)
}

/// Relies on `Path::file_name`: the last component of `p`, unless it is `..` or there is none.
#[verifier::external_body]
pub(crate) fn file_name_of(p: &str) -> (r: Option<String>)
    ensures
        match r {
            Some(n) => path_file_name(p@) == Some(n@),
            None => path_file_name(p@) is None,
        },
{
    match std::path::Path::new(p).file_name() {
        Some(n) => Some(n.to_string_lossy().into_owned()),
        None => None,
    }
}

} // verus!
