//! Expansion of a leading `~` in a path to the user's home directory.
//!
//! A path written as text refers to the home directory when it is exactly
//! `~`, or when it begins with `~` followed by a separator (`/` or `\`).
//! Expansion replaces the `~` by the home directory and keeps the separator
//! and everything after it. Every other text is left as it is; in
//! particular `~name` is an ordinary relative path.

use vstd::prelude::*;
use vstd::string::*;
use crate::lookup::{home_dir, path_text};

verus! {

/// Why the home directory could not be substituted.
#[derive(Debug, Copy, Clone, PartialEq, Eq, Structural)]
pub enum HomeDirError {
    /// The environment names no home directory.
    NoHomeDir,
    /// The home directory cannot be written as text.
    NonUtf8HomeDir,
}

impl HomeDirError {
    /// The diagnostic shown to the user for this error.
    pub open spec fn message_text(self) -> Seq<char> {
        match self {
            HomeDirError::NoHomeDir => "No home directory set"@,
            HomeDirError::NonUtf8HomeDir =>
                "Home directory path contains invalid unicode characters"@,
        }
    }

    /// Renders the diagnostic.
    pub fn message(&self) -> (text: String)
        ensures
            text@ == self.message_text(),
    {
        match self {
            HomeDirError::NoHomeDir => "No home directory set".to_owned(),
            HomeDirError::NonUtf8HomeDir =>
                "Home directory path contains invalid unicode characters".to_owned(),
        }
    }
}

/// The character that stands for the home directory.
pub open spec fn home_marker() -> char {
    '~'
}

/// Either of the two characters accepted as a path separator.
pub open spec fn is_separator(c: char) -> bool {
    c == '/' || c == '\\'
}

/// Whether `path` is `~` alone or starts with `~` and a separator.
pub open spec fn refers_to_home(path: Seq<char>) -> bool {
    &&& path.len() >= 1
    &&& path[0] == home_marker()
    &&& (path.len() == 1 || is_separator(path[1]))
}

/// `path` with a leading `~` replaced by `home`.
pub open spec fn expanded(path: Seq<char>, home: Seq<char>) -> Seq<char> {
    if refers_to_home(path) {
        home + path.skip(1)
    } else {
        path
    }
}

/// What expansion yields when the home directory lookup gave `home`.
///
/// The lookup is consulted only for a path that refers to the home directory,
/// so a failed lookup does not fail the expansion of any other path.
pub open spec fn expansion(
    path: Seq<char>,
    home: Result<Seq<char>, HomeDirError>,
) -> Result<Seq<char>, HomeDirError> {
    if refers_to_home(path) {
        match home {
            Ok(dir) => Ok(dir + path.skip(1)),
            Err(error) => Err(error),
        }
    } else {
        Ok(path)
    }
}

/// The characters of a looked-up or expanded text, with its error kept.
pub open spec fn text_of(outcome: Result<String, HomeDirError>) -> Result<Seq<char>, HomeDirError> {
    match outcome {
        Ok(text) => Ok(text@),
        Err(error) => Err(error),
    }
}

/// A path that does not start with `~` expands to itself, whatever the
/// lookup of the home directory gave.
pub proof fn plain_path_is_unchanged(path: Seq<char>, home: Result<Seq<char>, HomeDirError>)
    requires
        path.len() == 0 || path[0] != home_marker(),
    ensures
        expansion(path, home) == Ok::<Seq<char>, HomeDirError>(path),
{
}

/// `~` alone expands to exactly the home directory, with nothing added.
pub proof fn marker_alone_is_home(home: Seq<char>)
    ensures
        expansion(seq![home_marker()], Ok(home)) == Ok::<Seq<char>, HomeDirError>(home),
{
}

/// `~`, a separator and a remainder expand to the home directory followed
/// by that same separator and remainder.
pub proof fn marker_and_separator_expand(separator: char, rest: Seq<char>, home: Seq<char>)
    requires
        is_separator(separator),
    ensures
        expansion(seq![home_marker(), separator] + rest, Ok(home)) == Ok::<
            Seq<char>,
            HomeDirError,
        >(home + seq![separator] + rest),
{
    let path = seq![home_marker(), separator] + rest;
    assert(home + path.skip(1) =~= home + seq![separator] + rest);
}

/// A `~` that is followed by anything but a separator is part of a name:
/// the path expands to itself, whatever the lookup gave.
pub proof fn marker_inside_name_is_unchanged(
    path: Seq<char>,
    home: Result<Seq<char>, HomeDirError>,
)
    requires
        path.len() >= 2,
        path[0] == home_marker(),
        !is_separator(path[1]),
    ensures
        expansion(path, home) == Ok::<Seq<char>, HomeDirError>(path),
{
}

/// A path that refers to the home directory fails to expand with the very
/// error in which the lookup ended; no other directory is used in its place.
pub proof fn failed_lookup_fails_expansion(path: Seq<char>, error: HomeDirError)
    requires
        refers_to_home(path),
    ensures
        expansion(path, Err(error)) == Err::<Seq<char>, HomeDirError>(error),
{
}

/// Decides whether `path` refers to the home directory.
pub fn names_home(path: &str) -> (found: bool)
    ensures
        found == refers_to_home(path@),
{
    let length = path.unicode_len();
    if length == 0 {
        false
    } else if path.get_char(0) != '~' {
        false
    } else if length == 1 {
        true
    } else {
        let next = path.get_char(1);
        next == '/' || next == '\\'
    }
}

/// Replaces a leading `~` in `path` by `home`.
pub fn expand_with_home(path: String, home: String) -> (out: String)
    ensures
        out@ == expanded(path@, home@),
{
    if names_home(path.as_str()) {
        let length = path.as_str().unicode_len();
        let rest = path.as_str().substring_char(1, length);
        let mut out = home;
        out.append(rest);
        out
    } else {
        path
    }
}

/// Expands `path` against the outcome of a home directory lookup.
///
/// This is the whole of the expansion with the environment taken out: the
/// caller supplies what the lookup answered, or the error it ended in.
pub fn expand_from(path: String, home: Result<String, HomeDirError>) -> (out: Result<
    String,
    HomeDirError,
>)
    ensures
        text_of(out) == expansion(path@, text_of(home)),
        !refers_to_home(path@) ==> out == Ok::<String, HomeDirError>(path),
{
    if names_home(path.as_str()) {
        match home {
            Ok(dir) => Ok(expand_with_home(path, dir)),
            Err(error) => Err(error),
        }
    } else {
        Ok(path)
    }
}

/// Looks the home directory up and renders it as text.
fn home_dir_as_string() -> (home: Result<String, HomeDirError>) {
    let found = match home_dir() {
        None => None,
        Some(dir) => Some(path_text(&dir)),
    };
    lookup_as_text(found)
}

/// What a lookup of the home directory amounts to as text. `found` is
/// `None` where the environment names no home directory, and holds `None`
/// where it names one that is not valid text.
pub open spec fn lookup_outcome(found: Option<Option<Seq<char>>>) -> Result<
    Seq<char>,
    HomeDirError,
> {
    match found {
        None => Err(HomeDirError::NoHomeDir),
        Some(None) => Err(HomeDirError::NonUtf8HomeDir),
        Some(Some(text)) => Ok(text),
    }
}

/// The characters of what a lookup found.
pub open spec fn found_text(found: Option<Option<String>>) -> Option<Option<Seq<char>>> {
    match found {
        None => None,
        Some(None) => Some(None),
        Some(Some(text)) => Some(Some(text@)),
    }
}

/// Turns the answer of a home directory lookup into the text to expand
/// with, or into the error that says why there is none. No directory is
/// made up in place of a missing one.
///
/// The answer itself comes from the environment and cannot be known here;
/// this is where it is decided what each answer amounts to.
pub fn lookup_as_text(found: Option<Option<String>>) -> (home: Result<String, HomeDirError>)
    ensures
        text_of(home) == lookup_outcome(found_text(found)),
{
    match found {
        None => Err(HomeDirError::NoHomeDir),
        Some(None) => Err(HomeDirError::NonUtf8HomeDir),
        Some(Some(text)) => Ok(text),
    }
}

/// Values in which a leading `~` can be replaced by the home directory.
pub trait ExpandUser: Sized {
    /// Whether the value begins with the home directory marker.
    spec fn marks_home(&self) -> bool;

    /// Replaces a leading marker by the home directory of the current user.
    ///
    /// A value without the marker is handed back as it is, whatever the
    /// environment holds.
    fn expand_user(self) -> (out: Result<Self, HomeDirError>)
        ensures
            !self.marks_home() ==> out == Ok::<Self, HomeDirError>(self),
    ;
}

impl ExpandUser for String {
    open spec fn marks_home(&self) -> bool {
        refers_to_home(self@)
    }

    /// Expands against the home directory that the environment reports.
    ///
    /// Which directory that is cannot be known here, so for a path that
    /// refers to the home directory the contract says what holds of every
    /// answer: the result is `expansion` of the path for some outcome of the
    /// lookup. `expand_from` gives the result for each outcome.
    fn expand_user(self) -> (out: Result<String, HomeDirError>)
        ensures
            exists|home: Result<Seq<char>, HomeDirError>| text_of(out) == expansion(self@, home),
    {
        if names_home(self.as_str()) {
            expand_from(self, home_dir_as_string())
        } else {
            assert(Ok::<Seq<char>, HomeDirError>(self@) == expansion(
                self@,
                Err(HomeDirError::NoHomeDir),
            ));
            Ok(self)
        }
    }
}

} // verus!
