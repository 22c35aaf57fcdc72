//! The decisions of a tool that removes what a pattern matches.
//!
//! Matching the pattern, asking the user and removing are effects of the
//! caller. Decided here are the questions around them: whether the pattern
//! is refused because it names the root, what the user is asked and what an
//! answer means, which kind of removal fits a match, and how each failure is
//! worded.

use vstd::prelude::*;
use vstd::string::*;
use crate::home::HomeDirError;
use crate::text::{lowered, make_lower, same_text};

verus! {

/// Whether `pattern` names the root directory or all of its members.
pub open spec fn names_root(pattern: Seq<char>) -> bool {
    pattern == "/"@ || pattern == "/*"@
}

/// Whether a removal by `pattern` is refused for the sake of the root: it
/// is, unless the protection was switched off, when the pattern is `/` or
/// `/*`.
pub open spec fn root_is_guarded(pattern: Seq<char>, no_preserve_root: bool) -> bool {
    !no_preserve_root && names_root(pattern)
}

/// Decides whether a removal by `pattern` is refused for the sake of the
/// root.
pub fn guards_root(pattern: &str, no_preserve_root: bool) -> (guarded: bool)
    ensures
        guarded == root_is_guarded(pattern@, no_preserve_root),
{
    !no_preserve_root && (same_text(pattern, "/") || same_text(pattern, "/*"))
}

/// What the user said when asked whether to go on.
#[derive(Debug, Clone, Copy, PartialEq, Eq, Structural)]
pub enum Answer {
    /// Go on.
    Yes,
    /// Do not.
    No,
    /// Neither; the question is put again.
    Unclear,
}

/// The meaning of what has been typed so far, without regard to the case of
/// ASCII letters: `y` and `yes` agree, `n`, `no` and nothing at all decline,
/// and anything else is not an answer.
pub open spec fn answer_of(typed: Seq<char>) -> Answer {
    let said = lowered(typed);
    if said == "y"@ || said == "yes"@ {
        Answer::Yes
    } else if said == "n"@ || said == "no"@ || said.len() == 0 {
        Answer::No
    } else {
        Answer::Unclear
    }
}

/// Reads an answer out of what has been typed so far. The text is put into
/// lower case on the way, and stays so.
pub fn interpret(typed: &mut String) -> (answer: Answer)
    ensures
        answer == answer_of(old(typed)@),
        final(typed)@ == lowered(old(typed)@),
{
    make_lower(typed);
    let said = typed.as_str();
    if same_text(said, "y") || same_text(said, "yes") {
        Answer::Yes
    } else if same_text(said, "n") || same_text(said, "no") || said.is_empty() {
        Answer::No
    } else {
        Answer::Unclear
    }
}

/// The question put to the user before `path` is removed.
pub open spec fn question_text(path: Seq<char>) -> Seq<char> {
    "Delete file \""@ + path + "\"? [y/N]?"@
}

/// Words the question put to the user before `path` is removed.
pub fn question(path: &str) -> (text: String)
    ensures
        text@ == question_text(path@),
{
    let mut text = "Delete file \"".to_owned();
    text.append(path);
    text.append("\"? [y/N]?");
    text
}

/// The words with which the question is put again after an answer that was
/// none.
pub open spec fn reminder_text() -> Seq<char> {
    "Invalid input [y/N]?"@
}

/// Words the question as it is put again.
pub fn reminder() -> (text: String)
    ensures
        text@ == reminder_text(),
{
    "Invalid input [y/N]?".to_owned()
}

/// The file-system call by which a match is removed.
#[derive(Debug, Clone, Copy, PartialEq, Eq, Structural)]
pub enum Removal {
    /// Remove a single file.
    File,
    /// Remove a directory with everything in it.
    Tree,
    /// Remove a directory, which has to be empty.
    EmptyDir,
}

/// The removal that fits a match: a file is removed as a file; anything
/// else is taken for a directory, and goes with its contents only where
/// that was asked for.
pub open spec fn removal_for(is_file: bool, recursive: bool) -> Removal {
    if is_file {
        Removal::File
    } else if recursive {
        Removal::Tree
    } else {
        Removal::EmptyDir
    }
}

/// Chooses the removal that fits a match.
pub fn removal(is_file: bool, recursive: bool) -> (kind: Removal)
    ensures
        kind == removal_for(is_file, recursive),
{
    if is_file {
        Removal::File
    } else if recursive {
        Removal::Tree
    } else {
        Removal::EmptyDir
    }
}

/// Why a removal came to an end.
#[derive(Debug, Clone, PartialEq, Eq)]
pub enum RemoveError {
    /// The pattern names the root, and the root is protected.
    RootGuarded,
    /// The pattern refers to a home directory that could not be found.
    Home(HomeDirError),
    /// The pattern is not well formed.
    InvalidPattern,
    /// A match could not be read from the file system.
    MatchUnreadable,
    /// The match at `path` could not be resolved. `still_exists` tells
    /// whether anything was found at the path afterwards.
    Unresolved { path: String, still_exists: bool },
    /// The answer of the user could not be read.
    AnswerUnreadable,
    /// The match could not be removed.
    NotRemoved,
}

/// A `RemoveError` with its texts as sequences of characters.
pub enum RemoveErrorView {
    RootGuarded,
    Home(HomeDirError),
    InvalidPattern,
    MatchUnreadable,
    Unresolved { path: Seq<char>, still_exists: bool },
    AnswerUnreadable,
    NotRemoved,
}

impl View for RemoveError {
    type V = RemoveErrorView;

    open spec fn view(&self) -> RemoveErrorView {
        match self {
            RemoveError::RootGuarded => RemoveErrorView::RootGuarded,
            RemoveError::Home(error) => RemoveErrorView::Home(*error),
            RemoveError::InvalidPattern => RemoveErrorView::InvalidPattern,
            RemoveError::MatchUnreadable => RemoveErrorView::MatchUnreadable,
            RemoveError::Unresolved { path, still_exists } => RemoveErrorView::Unresolved {
                path: path@,
                still_exists: *still_exists,
            },
            RemoveError::AnswerUnreadable => RemoveErrorView::AnswerUnreadable,
            RemoveError::NotRemoved => RemoveErrorView::NotRemoved,
        }
    }
}

impl RemoveErrorView {
    /// The diagnostic shown to the user for this error, or `None` where the
    /// error has no wording of its own and the cause that the system
    /// reported is shown in its place: that is so for a match that could not
    /// be resolved because it is gone, and for an answer that could not be
    /// read.
    pub open spec fn message_text(self) -> Option<Seq<char>> {
        match self {
            RemoveErrorView::RootGuarded => Some(
                "Can't delete root ('/') or it's members ('/*') without --no-preserve-root option."@,
            ),
            RemoveErrorView::Home(error) => Some(error.message_text()),
            RemoveErrorView::InvalidPattern => Some("Invalid pattern"@),
            RemoveErrorView::MatchUnreadable => Some("Failed to get glob matches"@),
            RemoveErrorView::Unresolved { path, still_exists } => if still_exists {
                Some("Failed to canonicalize path '"@ + path + "'"@)
            } else {
                None
            },
            RemoveErrorView::AnswerUnreadable => None,
            RemoveErrorView::NotRemoved => Some("Failed to remove file or dir"@),
        }
    }
}

impl RemoveError {
    /// Renders the diagnostic, if the error has one of its own.
    pub fn message(&self) -> (text: Option<String>)
        ensures
            match text {
                Some(shown) => self@.message_text() == Some(shown@),
                None => self@.message_text() is None,
            },
    {
        match self {
            RemoveError::RootGuarded => Some(
                "Can't delete root ('/') or it's members ('/*') without --no-preserve-root option.".to_owned(),
            ),
            RemoveError::Home(error) => Some(error.message()),
            RemoveError::InvalidPattern => Some("Invalid pattern".to_owned()),
            RemoveError::MatchUnreadable => Some("Failed to get glob matches".to_owned()),
            RemoveError::Unresolved { path, still_exists } => {
                if *still_exists {
                    let mut text = "Failed to canonicalize path '".to_owned();
                    text.append(path.as_str());
                    text.append("'");
                    Some(text)
                } else {
                    None
                }
            },
            RemoveError::AnswerUnreadable => None,
            RemoveError::NotRemoved => Some("Failed to remove file or dir".to_owned()),
        }
    }
}

} // verus!
