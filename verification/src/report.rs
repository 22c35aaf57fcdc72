//! How a tool reports that it failed.

use vstd::prelude::*;
use vstd::string::*;

verus! {

/// The status with which a tool leaves after misuse or a fatal error.
pub const FAILURE_STATUS: i32 = 2;

/// The line in which a tool reports an error: the message behind the word
/// `Error` and a colon.
pub open spec fn error_line_text(message: Seq<char>) -> Seq<char> {
    "Error: "@ + message
}

/// Words the line in which a tool reports an error.
pub fn error_line(message: &str) -> (line: String)
    ensures
        line@ == error_line_text(message@),
{
    let mut line = "Error: ".to_owned();
    line.append(message);
    line
}

} // verus!
