//! The decisions of a tool that creates a directory from the parts of its
//! path.
//!
//! Each argument is one part of the path, or several parts already joined.
//! The directory to create is the arguments joined by `/`. Without
//! arguments, or when any of them asks for help, nothing is created and the
//! usage is shown.

use vstd::prelude::*;
use vstd::string::*;
use crate::text::{interleave, interleaved, same_text, texts_of};

verus! {

/// Whether `argument` asks for help.
pub open spec fn asks_for_help(argument: Seq<char>) -> bool {
    argument == "-h"@ || argument == "--help"@
}

/// Whether the usage is shown in place of any work: there are no arguments,
/// or one of them asks for help.
pub open spec fn wants_usage(arguments: Seq<Seq<char>>) -> bool {
    arguments.len() == 0 || exists|i: int|
        0 <= i < arguments.len() && asks_for_help(#[trigger] arguments[i])
}

/// What the tool does with its arguments.
#[derive(Debug, Clone, PartialEq, Eq)]
pub enum Plan {
    /// Show the usage and leave with the status for misuse.
    ShowUsage,
    /// Create this directory and all that are missing above it.
    Create(String),
}

/// A `Plan` with its text as a sequence of characters.
pub enum PlanView {
    ShowUsage,
    Create(Seq<char>),
}

impl View for Plan {
    type V = PlanView;

    open spec fn view(&self) -> PlanView {
        match self {
            Plan::ShowUsage => PlanView::ShowUsage,
            Plan::Create(path) => PlanView::Create(path@),
        }
    }
}

/// The plan that `arguments` call for.
pub open spec fn plan_for(arguments: Seq<Seq<char>>) -> PlanView {
    if wants_usage(arguments) {
        PlanView::ShowUsage
    } else {
        PlanView::Create(interleaved(arguments, "/"@))
    }
}

/// Decides what to do with the arguments.
pub fn plan(arguments: &Vec<String>) -> (chosen: Plan)
    ensures
        chosen@ == plan_for(texts_of(arguments@)),
{
    if arguments.len() == 0 {
        return Plan::ShowUsage;
    }
    let mut seen: usize = 0;
    while seen < arguments.len()
        invariant
            seen <= arguments.len(),
            forall|i: int| 0 <= i < seen ==> !asks_for_help(#[trigger] texts_of(arguments@)[i]),
        decreases arguments.len() - seen,
    {
        let argument = arguments[seen].as_str();
        if same_text(argument, "-h") || same_text(argument, "--help") {
            assert(asks_for_help(texts_of(arguments@)[seen as int]));
            return Plan::ShowUsage;
        }
        seen = seen + 1;
    }
    Plan::Create(interleave(arguments, "/"))
}

/// The usage shown to the user.
pub open spec fn usage_text() -> Seq<char> {
    "Usage: mkall <path_or_parts> ..."@
}

/// Words the usage.
pub fn usage() -> (text: String)
    ensures
        text@ == usage_text(),
{
    "Usage: mkall <path_or_parts> ...".to_owned()
}

} // verus!
