//! Obtaining a destination path from an interactive editor.
//!
//! A placeholder is written to a scratch file, an editor is run on that
//! file, and whatever the file holds once the editor has exited is the
//! destination. Creating the file, running the editor and reading the file
//! are effects, and they are left to a driver. What is fixed here is the
//! protocol: which effect comes next, what each failure means, and what the
//! session ends in. The driver starts with `Session::start`, performs the
//! action it is given, reports how that went with `Session::step`, and goes
//! on until the action is `Finish`.
//!
//! The text read back is handed on exactly as it was read. In particular a
//! line ending that the editor appended is part of the result.

use vstd::prelude::*;
use vstd::string::*;
use crate::paths::{file_name, file_name_of};

verus! {

/// Why no destination was obtained.
#[derive(Debug, Clone, PartialEq, Eq)]
pub enum EditorError {
    /// The scratch file could not be created.
    ScratchFileCreateFailed,
    /// The placeholder could not be written to the scratch file.
    PlaceholderWriteFailed,
    /// The editor named here could not be launched.
    EditorLaunchFailed { editor: String },
    /// The scratch file could not be read back as text.
    ReadBackFailed,
}

/// An `EditorError` with its text as a sequence of characters.
pub enum EditorErrorView {
    ScratchFileCreateFailed,
    PlaceholderWriteFailed,
    EditorLaunchFailed { editor: Seq<char> },
    ReadBackFailed,
}

impl View for EditorError {
    type V = EditorErrorView;

    open spec fn view(&self) -> EditorErrorView {
        match self {
            EditorError::ScratchFileCreateFailed => EditorErrorView::ScratchFileCreateFailed,
            EditorError::PlaceholderWriteFailed => EditorErrorView::PlaceholderWriteFailed,
            EditorError::EditorLaunchFailed { editor } => EditorErrorView::EditorLaunchFailed {
                editor: editor@,
            },
            EditorError::ReadBackFailed => EditorErrorView::ReadBackFailed,
        }
    }
}

impl EditorErrorView {
    /// The diagnostic shown to the user for this error. A failed launch is
    /// reported with the name of the editor that was tried.
    pub open spec fn message_text(self) -> Seq<char> {
        match self {
            EditorErrorView::ScratchFileCreateFailed => "Failed to make temp file"@,
            EditorErrorView::PlaceholderWriteFailed =>
                "Failed to write placeholder to temp file"@,
            EditorErrorView::EditorLaunchFailed { editor } =>
                "Failed to launch editor (it's set to '"@ + editor + "'; is it in your $PATH?)"@,
            EditorErrorView::ReadBackFailed => "Failed to read from temp file"@,
        }
    }
}

impl EditorError {
    /// Renders the diagnostic.
    pub fn message(&self) -> (text: String)
        ensures
            text@ == self@.message_text(),
    {
        match self {
            EditorError::ScratchFileCreateFailed => "Failed to make temp file".to_owned(),
            EditorError::PlaceholderWriteFailed =>
                "Failed to write placeholder to temp file".to_owned(),
            EditorError::EditorLaunchFailed { editor } => {
                let mut text = "Failed to launch editor (it's set to '".to_owned();
                text.append(editor.as_str());
                text.append("'; is it in your $PATH?)");
                text
            },
            EditorError::ReadBackFailed => "Failed to read from temp file".to_owned(),
        }
    }
}

/// The command of the editor that is launched unless another is configured.
pub open spec fn default_editor_text() -> Seq<char> {
    "hx"@
}

/// Names the editor that is launched unless another is configured.
pub fn default_editor() -> (editor: String)
    ensures
        editor@ == default_editor_text(),
{
    "hx".to_owned()
}

/// The text offered for editing: the final segment of `source` where only
/// the name is to be edited, else `source` in full. There is none where the
/// name is asked for and the path has no final segment.
pub open spec fn placeholder_text(source: Seq<char>, name_only: bool) -> Option<Seq<char>> {
    if name_only {
        file_name_of(source)
    } else {
        Some(source)
    }
}

/// Computes the text offered for editing.
pub fn placeholder(source: &str, name_only: bool) -> (text: Option<String>)
    ensures
        match text {
            Some(shown) => placeholder_text(source@, name_only) == Some(shown@),
            None => placeholder_text(source@, name_only) is None,
        },
{
    if name_only {
        file_name(source)
    } else {
        Some(source.to_owned())
    }
}

/// How far a session has come: the effect whose outcome is awaited.
#[derive(Debug, Clone, Copy, PartialEq, Eq, Structural)]
pub enum Stage {
    /// The scratch file is being created.
    Opening,
    /// The placeholder is being written.
    Writing,
    /// The editor is running.
    Editing,
    /// The scratch file is being read back.
    Reading,
    /// The session is over.
    Closed,
}

/// Whether a scratch file exists while the session is at `stage`.
pub open spec fn holds_scratch(stage: Stage) -> bool {
    stage == Stage::Writing || stage == Stage::Editing || stage == Stage::Reading
}

/// The number of effects that can still follow the one awaited at `stage`.
pub open spec fn steps_left(stage: Stage) -> nat {
    match stage {
        Stage::Opening => 4,
        Stage::Writing => 3,
        Stage::Editing => 2,
        Stage::Reading => 1,
        Stage::Closed => 0,
    }
}

/// How the effect that the driver was asked for went.
#[derive(Debug, Clone, PartialEq, Eq)]
pub enum Event {
    /// The effect took place. For the editor this means that it was launched
    /// and has exited; its exit status is of no concern.
    Done,
    /// The effect did not take place.
    Failed,
    /// The scratch file was read, and this is what it held.
    Text(String),
}

/// An `Event` with its text as a sequence of characters.
pub enum EventView {
    Done,
    Failed,
    Text(Seq<char>),
}

impl View for Event {
    type V = EventView;

    open spec fn view(&self) -> EventView {
        match self {
            Event::Done => EventView::Done,
            Event::Failed => EventView::Failed,
            Event::Text(text) => EventView::Text(text@),
        }
    }
}

/// What the driver is to do next.
#[derive(Debug, PartialEq, Eq)]
pub enum Action {
    /// Create an empty scratch file.
    CreateScratch,
    /// Write exactly this text to the scratch file, with nothing after it.
    WritePlaceholder(String),
    /// Run this command with the path of the scratch file as its only
    /// argument, and wait until it exits.
    LaunchEditor(String),
    /// Read the whole scratch file from its start, as text.
    ReadBack,
    /// End the session with `result`. Where `discard_scratch` is set, a
    /// scratch file exists and is to be removed first.
    Finish { result: Result<String, EditorError>, discard_scratch: bool },
    /// Nothing: the session has ended before.
    Halt,
}

/// An `Action` with its texts as sequences of characters.
pub enum ActionView {
    CreateScratch,
    WritePlaceholder(Seq<char>),
    LaunchEditor(Seq<char>),
    ReadBack,
    Finish { result: Result<Seq<char>, EditorErrorView>, discard_scratch: bool },
    Halt,
}

impl View for Action {
    type V = ActionView;

    open spec fn view(&self) -> ActionView {
        match self {
            Action::CreateScratch => ActionView::CreateScratch,
            Action::WritePlaceholder(text) => ActionView::WritePlaceholder(text@),
            Action::LaunchEditor(editor) => ActionView::LaunchEditor(editor@),
            Action::ReadBack => ActionView::ReadBack,
            Action::Finish { result, discard_scratch } => ActionView::Finish {
                result: match result {
                    Ok(text) => Ok(text@),
                    Err(error) => Err(error@),
                },
                discard_scratch: *discard_scratch,
            },
            Action::Halt => ActionView::Halt,
        }
    }
}

/// The action that ends a session at `stage` in `error`.
pub open spec fn failure(stage: Stage, error: EditorErrorView) -> (Stage, ActionView) {
    (Stage::Closed, ActionView::Finish { result: Err(error), discard_scratch: holds_scratch(stage) })
}

/// The stage and the action that follow when `event` is reported at `stage`
/// of a session that offers `placeholder` in `editor`.
///
/// Creating, writing and launching have failed when `Failed` is reported,
/// and have succeeded otherwise. Reading has succeeded when a text is
/// reported, and has failed otherwise.
pub open spec fn transition(
    placeholder: Seq<char>,
    editor: Seq<char>,
    stage: Stage,
    event: EventView,
) -> (Stage, ActionView) {
    match stage {
        Stage::Opening => if event is Failed {
            failure(stage, EditorErrorView::ScratchFileCreateFailed)
        } else {
            (Stage::Writing, ActionView::WritePlaceholder(placeholder))
        },
        Stage::Writing => if event is Failed {
            failure(stage, EditorErrorView::PlaceholderWriteFailed)
        } else {
            (Stage::Editing, ActionView::LaunchEditor(editor))
        },
        Stage::Editing => if event is Failed {
            failure(stage, EditorErrorView::EditorLaunchFailed { editor })
        } else {
            (Stage::Reading, ActionView::ReadBack)
        },
        Stage::Reading => match event {
            EventView::Text(text) => (
                Stage::Closed,
                ActionView::Finish { result: Ok(text), discard_scratch: true },
            ),
            _ => failure(stage, EditorErrorView::ReadBackFailed),
        },
        Stage::Closed => (Stage::Closed, ActionView::Halt),
    }
}

/// When every effect succeeds and the scratch file still holds what was
/// written to it, the session ends in exactly the placeholder: the text is
/// neither trimmed nor otherwise altered on its way.
pub proof fn untouched_placeholder_comes_back(placeholder: Seq<char>, editor: Seq<char>)
    ensures
        ({
            let created = transition(placeholder, editor, Stage::Opening, EventView::Done);
            let written = transition(placeholder, editor, created.0, EventView::Done);
            let edited = transition(placeholder, editor, written.0, EventView::Done);
            let read = transition(placeholder, editor, edited.0, EventView::Text(placeholder));
            &&& created.1 == ActionView::WritePlaceholder(placeholder)
            &&& written.1 == ActionView::LaunchEditor(editor)
            &&& edited.1 == ActionView::ReadBack
            &&& read == (
                Stage::Closed,
                ActionView::Finish { result: Ok(placeholder), discard_scratch: true },
            )
        }),
{
}

/// Whatever text the scratch file holds when it is read back is the result
/// of the session, character for character.
pub proof fn text_read_back_is_the_result(
    placeholder: Seq<char>,
    editor: Seq<char>,
    text: Seq<char>,
)
    ensures
        transition(placeholder, editor, Stage::Reading, EventView::Text(text)) == (
            Stage::Closed,
            ActionView::Finish { result: Ok(text), discard_scratch: true },
        ),
{
}

/// An editor that cannot be launched ends the session in a launch error
/// that carries the editor's command, the scratch file is discarded, and the
/// diagnostic spells the command out.
pub proof fn failed_launch_names_the_editor(placeholder: Seq<char>, editor: Seq<char>)
    ensures
        transition(placeholder, editor, Stage::Editing, EventView::Failed) == (
            Stage::Closed,
            ActionView::Finish {
                result: Err(EditorErrorView::EditorLaunchFailed { editor }),
                discard_scratch: true,
            },
        ),
        ({
            let message = EditorErrorView::EditorLaunchFailed { editor }.message_text();
            let lead = "Failed to launch editor (it's set to '"@;
            &&& message.len() >= lead.len() + editor.len()
            &&& message.subrange(lead.len() as int, (lead.len() + editor.len()) as int) == editor
        }),
{
}

/// No session leaves its scratch file behind. The step that takes a session
/// out of the stages in which the file exists is a `Finish` that has the
/// file discarded, whether the session succeeded or failed; a `Finish` asks
/// for the file to be discarded only if there is one; and a session ends
/// with `Finish` and in no other way.
pub proof fn scratch_is_always_discarded(
    placeholder: Seq<char>,
    editor: Seq<char>,
    stage: Stage,
    event: EventView,
)
    ensures
        ({
            let (next, action) = transition(placeholder, editor, stage, event);
            &&& !holds_scratch(Stage::Closed)
            &&& action matches ActionView::Finish { discard_scratch, .. } ==> next == Stage::Closed
                && discard_scratch == holds_scratch(stage)
            &&& stage != Stage::Closed && next == Stage::Closed ==> action is Finish
            &&& holds_scratch(stage) && !holds_scratch(next) ==> action is Finish
        }),
{
}

/// Every step brings the session nearer to its end, so a session is over
/// after at most four reported outcomes.
pub proof fn session_moves_forward(
    placeholder: Seq<char>,
    editor: Seq<char>,
    stage: Stage,
    event: EventView,
)
    requires
        stage != Stage::Closed,
    ensures
        steps_left(transition(placeholder, editor, stage, event).0) < steps_left(stage),
{
}

/// One round trip of a placeholder through an editor.
#[derive(Debug, Clone, PartialEq, Eq)]
pub struct Session {
    /// The text offered for editing.
    pub placeholder: String,
    /// The command of the editor.
    pub editor: String,
}

impl Session {
    /// A session that offers `placeholder` in `editor`.
    pub fn new(placeholder: String, editor: String) -> (session: Session)
        ensures
            session.placeholder@ == placeholder@,
            session.editor@ == editor@,
    {
        Session { placeholder, editor }
    }

    /// Opens the session: the scratch file is to be created.
    pub fn start(&self) -> (first: (Stage, Action))
        ensures
            first.0 == Stage::Opening,
            first.1@ == ActionView::CreateScratch,
    {
        (Stage::Opening, Action::CreateScratch)
    }

    /// Takes the outcome of the effect awaited at `stage` and says what
    /// comes next.
    pub fn step(&self, stage: Stage, event: Event) -> (next: (Stage, Action))
        ensures
            next.0 == transition(self.placeholder@, self.editor@, stage, event@).0,
            next.1@ == transition(self.placeholder@, self.editor@, stage, event@).1,
    {
        match stage {
            Stage::Opening => match event {
                Event::Failed => (
                    Stage::Closed,
                    Action::Finish {
                        result: Err(EditorError::ScratchFileCreateFailed),
                        discard_scratch: false,
                    },
                ),
                _ => (Stage::Writing, Action::WritePlaceholder(self.placeholder.clone())),
            },
            Stage::Writing => match event {
                Event::Failed => (
                    Stage::Closed,
                    Action::Finish {
                        result: Err(EditorError::PlaceholderWriteFailed),
                        discard_scratch: true,
                    },
                ),
                _ => (Stage::Editing, Action::LaunchEditor(self.editor.clone())),
            },
            Stage::Editing => match event {
                Event::Failed => (
                    Stage::Closed,
                    Action::Finish {
                        result: Err(EditorError::EditorLaunchFailed { editor: self.editor.clone() }),
                        discard_scratch: true,
                    },
                ),
                _ => (Stage::Reading, Action::ReadBack),
            },
            Stage::Reading => match event {
                Event::Text(text) => (
                    Stage::Closed,
                    Action::Finish { result: Ok(text), discard_scratch: true },
                ),
                _ => (
                    Stage::Closed,
                    Action::Finish {
                        result: Err(EditorError::ReadBackFailed),
                        discard_scratch: true,
                    },
                ),
            },
            Stage::Closed => (Stage::Closed, Action::Halt),
        }
    }
}

} // verus!
