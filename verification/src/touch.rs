//! The decisions of a tool that creates a file if it is missing.
//!
//! Opening the file is an effect of the caller. Decided here is how a
//! failure to open it is explained to the user.

use vstd::prelude::*;
use vstd::string::*;

verus! {

/// The kinds of failure to open a file that are told apart.
#[derive(Debug, Clone, Copy, PartialEq, Eq, Structural)]
pub enum OpenFailure {
    /// Something on the way to the file does not exist.
    NotFound,
    /// The name is one that the system does not accept.
    InvalidInput,
    /// Any other failure.
    Other,
}

/// The explanation given for a failure of this kind, or `None` where the
/// cause that the system reported is shown as it is.
pub open spec fn explanation_text(failure: OpenFailure) -> Option<Seq<char>> {
    match failure {
        OpenFailure::NotFound => Some(
            "Path is invalid. If the ancestor directories don't exist, automatically create them with the '-a' flag"@,
        ),
        OpenFailure::InvalidInput => Some("File name is forbidden"@),
        OpenFailure::Other => None,
    }
}

/// Explains a failure to open the file, where there is an explanation.
pub fn explanation(failure: OpenFailure) -> (text: Option<String>)
    ensures
        match text {
            Some(shown) => explanation_text(failure) == Some(shown@),
            None => explanation_text(failure) is None,
        },
{
    match failure {
        OpenFailure::NotFound => Some(
            "Path is invalid. If the ancestor directories don't exist, automatically create them with the '-a' flag".to_owned(),
        ),
        OpenFailure::InvalidInput => Some("File name is forbidden".to_owned()),
        OpenFailure::Other => None,
    }
}

} // verus!
