//! Lexical operations on paths written as text.
//!
//! The operations themselves are those of `std::path` and of the
//! `path-clean` crate, which follow the path conventions of the platform the
//! program is built for. Verified code does not look into them. Each one is
//! a function of its arguments alone, so its result has a name here, and the
//! contracts of the callers are stated over those names. What each name
//! evaluates to on a given path is settled by the library behind it, not by
//! a proof.
//!
//! Every wrapper takes and returns text. A path built from text, split or
//! joined, is text again, so the conversions inside the wrappers lose
//! nothing.

use std::path::Path;
use path_clean::PathClean;
use vstd::prelude::*;

verus! {

/// Whether `Path::is_relative` holds of `path`.
pub uninterp spec fn relative_path(path: Seq<char>) -> bool;

/// The path that `Path::join` builds from `base` and `tail`.
pub uninterp spec fn joined_path(base: Seq<char>, tail: Seq<char>) -> Seq<char>;

/// The path that `path_clean::clean` reduces `path` to: `.` segments and
/// repeated separators removed, `..` segments resolved against the segment
/// before them, all without consulting the file system.
pub uninterp spec fn cleaned_path(path: Seq<char>) -> Seq<char>;

/// The final segment of `path` as `Path::file_name` gives it, or `None`
/// where the path has none, as when it ends in `..`.
pub uninterp spec fn file_name_of(path: Seq<char>) -> Option<Seq<char>>;

/// `path` without its final segment as `Path::parent` gives it, or `None`
/// where the path ends in a root or is empty.
pub uninterp spec fn parent_of(path: Seq<char>) -> Option<Seq<char>>;

/// Whether `first` and `second` are equal as paths, that is, segment by
/// segment, as `==` on `Path` decides.
pub uninterp spec fn same_path(first: Seq<char>, second: Seq<char>) -> bool;

/// Calls `Path::is_relative` on the path written as `path`.
///
/// Trusted: the answer is the one named `relative_path`.
#[verifier::external_body]
pub(crate) fn is_relative(path: &str) -> (relative: bool)
    ensures
        relative == relative_path(path@),
{
    Path::new(path).is_relative()
}

/// Calls `Path::join` on the paths written as `base` and `tail`.
///
/// Trusted: the text of the joined path is the one named `joined_path`.
#[verifier::external_body]
pub(crate) fn join(base: &str, tail: &str) -> (joined: String)
    ensures
        joined@ == joined_path(base@, tail@),
{
    Path::new(base).join(tail).to_string_lossy().into_owned()
}

/// Calls `PathClean::clean` of the `path-clean` crate on the path written as
/// `path`.
///
/// Trusted: the text of the cleaned path is the one named `cleaned_path`.
#[verifier::external_body]
pub(crate) fn clean(path: &str) -> (cleaned: String)
    ensures
        cleaned@ == cleaned_path(path@),
{
    Path::new(path).clean().to_string_lossy().into_owned()
}

/// Calls `Path::file_name` on the path written as `path`.
///
/// Trusted: the text of the final segment, or its absence, is the one named
/// `file_name_of`.
#[verifier::external_body]
pub(crate) fn file_name(path: &str) -> (name: Option<String>)
    ensures
        match name {
            Some(text) => file_name_of(path@) == Some(text@),
            None => file_name_of(path@) is None,
        },
{
    match Path::new(path).file_name() {
        Some(name) => Some(name.to_string_lossy().into_owned()),
        None => None,
    }
}

/// Calls `Path::parent` on the path written as `path`.
///
/// Trusted: the text of the parent, or its absence, is the one named
/// `parent_of`.
#[verifier::external_body]
pub(crate) fn parent(path: &str) -> (dir: Option<String>)
    ensures
        match dir {
            Some(text) => parent_of(path@) == Some(text@),
            None => parent_of(path@) is None,
        },
{
    match Path::new(path).parent() {
        Some(dir) => Some(dir.to_string_lossy().into_owned()),
        None => None,
    }
}

/// Compares the paths written as `first` and `second` with `==` on `Path`.
///
/// Trusted: the answer is the one named `same_path`.
#[verifier::external_body]
pub(crate) fn is_same(first: &str, second: &str) -> (same: bool)
    ensures
        same == same_path(first@, second@),
{
    Path::new(first) == Path::new(second)
}

} // verus!
