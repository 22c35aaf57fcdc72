//! The decisions of a rename whose destination may come from an editor.
//!
//! Renaming a file takes a handful of questions to the file system, perhaps
//! a session in an editor, and at most two changes on disk. A driver asks
//! the questions and makes the changes. What is fixed here is the plan:
//! which action comes next, given the request and the replies so far, and
//! the error in which the rename ends when it cannot go on. The driver
//! starts with `Request::start`, performs the action it is given, reports
//! the reply with `Request::step`, and goes on until the action is `Stop`.
//!
//! The paths themselves are taken apart and put together by the platform's
//! path library, whose answers verified code cannot compute. Each decision
//! that rests on such an answer is therefore a function of its own that
//! takes the answer as an argument: `Request::detours`, `Request::offer`,
//! `Request::placing` and `Request::toward`. `Request::step` asks the path
//! library and hands its answers to them.
//!
//! In order, the plan
//! - refuses a source that does not exist;
//! - on request, and for a relative source, resolves the source against the
//!   working directory and cleans it, without following links;
//! - takes the destination from the request, or else offers the source (or
//!   only its final segment) for editing and takes what comes back;
//! - refuses an empty destination;
//! - where only the name was asked for, places the destination beside the
//!   source;
//! - unless told to overwrite, refuses a destination that exists;
//! - on request, has the directories above the destination created;
//! - and renames, unless source and destination are the same path.

use vstd::prelude::*;
use vstd::string::*;
use crate::editor::{placeholder, placeholder_text, EditorError, EditorErrorView};
use crate::paths::{
    clean, cleaned_path, is_relative, is_same, join, joined_path, parent, parent_of,
    relative_path, same_path,
};

verus! {

/// What is asked of a rename.
#[derive(Debug, Clone, PartialEq, Eq)]
pub struct Request {
    /// The file to rename.
    pub source: String,
    /// The new path, if it is known beforehand.
    pub destination: Option<String>,
    /// Whether a relative source is resolved against the working directory.
    pub canonical: bool,
    /// Whether only the final segment of the source is renamed.
    pub name_only: bool,
    /// Whether an existing destination may be replaced.
    pub destructive: bool,
    /// Whether missing directories above the destination are created.
    pub create_ancestors: bool,
    /// The command of the editor in which a destination is asked for.
    pub editor: String,
}

/// A `Request` with its texts as sequences of characters.
pub struct RequestView {
    pub source: Seq<char>,
    pub destination: Option<Seq<char>>,
    pub canonical: bool,
    pub name_only: bool,
    pub destructive: bool,
    pub create_ancestors: bool,
    pub editor: Seq<char>,
}

impl View for Request {
    type V = RequestView;

    open spec fn view(&self) -> RequestView {
        RequestView {
            source: self.source@,
            destination: match self.destination {
                Some(text) => Some(text@),
                None => None,
            },
            canonical: self.canonical,
            name_only: self.name_only,
            destructive: self.destructive,
            create_ancestors: self.create_ancestors,
            editor: self.editor@,
        }
    }
}

/// Why a rename did not take place.
#[derive(Debug, Clone, PartialEq, Eq)]
pub enum RenameError {
    /// The source does not exist.
    SourceMissing { source: String },
    /// The working directory could not be determined.
    WorkingDirUnavailable,
    /// Only the name was to be edited, but the source has no final segment.
    NoFileName,
    /// No destination was obtained from the editor.
    Editor(EditorError),
    /// The destination is empty.
    EmptyDestination,
    /// Only the name was given, but the source has no directory above it.
    NoParent,
    /// The destination exists and may not be replaced.
    DestinationExists { destination: String },
    /// The directories above the destination could not be created.
    AncestorsNotCreated,
    /// The file system refused the rename.
    RenameFailed,
}

/// A `RenameError` with its texts as sequences of characters.
pub enum RenameErrorView {
    SourceMissing { source: Seq<char> },
    WorkingDirUnavailable,
    NoFileName,
    Editor(EditorErrorView),
    EmptyDestination,
    NoParent,
    DestinationExists { destination: Seq<char> },
    AncestorsNotCreated,
    RenameFailed,
}

impl View for RenameError {
    type V = RenameErrorView;

    open spec fn view(&self) -> RenameErrorView {
        match self {
            RenameError::SourceMissing { source } => RenameErrorView::SourceMissing {
                source: source@,
            },
            RenameError::WorkingDirUnavailable => RenameErrorView::WorkingDirUnavailable,
            RenameError::NoFileName => RenameErrorView::NoFileName,
            RenameError::Editor(error) => RenameErrorView::Editor(error@),
            RenameError::EmptyDestination => RenameErrorView::EmptyDestination,
            RenameError::NoParent => RenameErrorView::NoParent,
            RenameError::DestinationExists { destination } => RenameErrorView::DestinationExists {
                destination: destination@,
            },
            RenameError::AncestorsNotCreated => RenameErrorView::AncestorsNotCreated,
            RenameError::RenameFailed => RenameErrorView::RenameFailed,
        }
    }
}

impl RenameErrorView {
    /// The diagnostic shown to the user for this error, or `None` where the
    /// error has no wording of its own and the cause that the system
    /// reported is shown in its place.
    pub open spec fn message_text(self) -> Option<Seq<char>> {
        match self {
            RenameErrorView::SourceMissing { source } => Some(
                "\""@ + source + "\" doesn't exist"@,
            ),
            RenameErrorView::WorkingDirUnavailable => None,
            RenameErrorView::NoFileName => Some(
                "`name-only` flag used with source path that ends in `..`"@,
            ),
            RenameErrorView::Editor(error) => Some(error.message_text()),
            RenameErrorView::EmptyDestination => Some("Destination can't be an empty string"@),
            RenameErrorView::NoParent => Some("'name-only' flag used with invalid path"@),
            RenameErrorView::DestinationExists { destination } => Some(
                "\""@ + destination + "\" already exists. Use the '-d' flag to replace anyway"@,
            ),
            RenameErrorView::AncestorsNotCreated => Some("Failed to create ancestors"@),
            RenameErrorView::RenameFailed => Some("Failed to rename"@),
        }
    }
}

impl RenameError {
    /// Renders the diagnostic, if the error has one of its own.
    pub fn message(&self) -> (text: Option<String>)
        ensures
            match text {
                Some(shown) => self@.message_text() == Some(shown@),
                None => self@.message_text() is None,
            },
    {
        match self {
            RenameError::SourceMissing { source } => {
                let mut text = "\"".to_owned();
                text.append(source.as_str());
                text.append("\" doesn't exist");
                Some(text)
            },
            RenameError::WorkingDirUnavailable => None,
            RenameError::NoFileName => Some(
                "`name-only` flag used with source path that ends in `..`".to_owned(),
            ),
            RenameError::Editor(error) => Some(error.message()),
            RenameError::EmptyDestination => Some(
                "Destination can't be an empty string".to_owned(),
            ),
            RenameError::NoParent => Some("'name-only' flag used with invalid path".to_owned()),
            RenameError::DestinationExists { destination } => {
                let mut text = "\"".to_owned();
                text.append(destination.as_str());
                text.append("\" already exists. Use the '-d' flag to replace anyway");
                Some(text)
            },
            RenameError::AncestorsNotCreated => Some("Failed to create ancestors".to_owned()),
            RenameError::RenameFailed => Some("Failed to rename".to_owned()),
        }
    }
}

/// How far a rename has come: the action whose reply is awaited.
#[derive(Debug, Clone, Copy, PartialEq, Eq, Structural)]
pub enum Phase {
    /// Whether the source exists is being asked.
    CheckingSource,
    /// The working directory is being asked for.
    LocatingWorkingDir,
    /// A destination is being edited.
    Editing,
    /// Whether the destination exists is being asked.
    CheckingDestination,
    /// The directories above the destination are being created.
    CreatingAncestors,
    /// The file is being renamed.
    Renaming,
    /// The rename is over.
    Finished,
}

/// The number of actions that can still follow the one awaited in `phase`.
pub open spec fn actions_left(phase: Phase) -> nat {
    match phase {
        Phase::CheckingSource => 6,
        Phase::LocatingWorkingDir => 5,
        Phase::Editing => 4,
        Phase::CheckingDestination => 3,
        Phase::CreatingAncestors => 2,
        Phase::Renaming => 1,
        Phase::Finished => 0,
    }
}

/// A destination together with what the path library says of it.
#[derive(Debug, Clone, PartialEq, Eq)]
pub struct Target {
    /// The destination.
    pub path: String,
    /// The directory above the destination, if it has one.
    pub parent: Option<String>,
    /// Whether the destination is the same path as the source.
    pub same_as_source: bool,
}

/// A `Target` with its texts as sequences of characters.
pub struct TargetView {
    pub path: Seq<char>,
    pub parent: Option<Seq<char>>,
    pub same_as_source: bool,
}

impl View for Target {
    type V = TargetView;

    open spec fn view(&self) -> TargetView {
        TargetView {
            path: self.path@,
            parent: match self.parent {
                Some(dir) => Some(dir@),
                None => None,
            },
            same_as_source: self.same_as_source,
        }
    }
}

/// The target that stands in a state which has none yet, or none any more.
pub open spec fn no_target() -> TargetView {
    TargetView { path: Seq::empty(), parent: None, same_as_source: false }
}

/// What a rename remembers between two actions.
#[derive(Debug, Clone, PartialEq, Eq)]
pub struct State {
    /// The action whose reply is awaited.
    pub phase: Phase,
    /// The source as resolved, from `Editing` up to `CreatingAncestors`;
    /// empty in every other phase.
    pub source: String,
    /// The destination as resolved, in `CheckingDestination` and
    /// `CreatingAncestors`; `no_target` in every other phase.
    pub target: Target,
}

/// A `State` with its texts as sequences of characters.
pub struct StateView {
    pub phase: Phase,
    pub source: Seq<char>,
    pub target: TargetView,
}

impl View for State {
    type V = StateView;

    open spec fn view(&self) -> StateView {
        StateView { phase: self.phase, source: self.source@, target: self.target@ }
    }
}

/// What the driver found when it performed an action.
#[derive(Debug, Clone, PartialEq, Eq)]
pub enum Reply {
    /// The path asked about exists.
    Yes,
    /// The path asked about does not exist.
    No,
    /// The change was made.
    Done,
    /// The action could not be performed.
    Failed,
    /// The text asked for: the working directory, or the edited destination.
    Text(String),
    /// The session in the editor ended in this error.
    EditorFailed(EditorError),
}

/// A `Reply` with its texts as sequences of characters.
pub enum ReplyView {
    Yes,
    No,
    Done,
    Failed,
    Text(Seq<char>),
    EditorFailed(EditorErrorView),
}

impl View for Reply {
    type V = ReplyView;

    open spec fn view(&self) -> ReplyView {
        match self {
            Reply::Yes => ReplyView::Yes,
            Reply::No => ReplyView::No,
            Reply::Done => ReplyView::Done,
            Reply::Failed => ReplyView::Failed,
            Reply::Text(text) => ReplyView::Text(text@),
            Reply::EditorFailed(error) => ReplyView::EditorFailed(error@),
        }
    }
}

/// What the driver is to do next.
#[derive(Debug, PartialEq, Eq)]
pub enum Action {
    /// Find out whether this path exists; reply `Yes` or `No`.
    CheckExists(String),
    /// Find out the working directory; reply with its text.
    QueryWorkingDir,
    /// Offer `placeholder` for editing in `editor`; reply with the text that
    /// comes back, or with the error in which the session ended.
    Edit { placeholder: String, editor: String },
    /// Create this directory and all that are missing above it.
    CreateDirs(String),
    /// Rename `from` to `to`.
    Rename { from: String, to: String },
    /// End the rename with this outcome.
    Stop(Result<(), RenameError>),
    /// Nothing: the rename has ended before.
    Halt,
}

/// An `Action` with its texts as sequences of characters.
pub enum ActionView {
    CheckExists(Seq<char>),
    QueryWorkingDir,
    Edit { placeholder: Seq<char>, editor: Seq<char> },
    CreateDirs(Seq<char>),
    Rename { from: Seq<char>, to: Seq<char> },
    Stop(Result<(), RenameErrorView>),
    Halt,
}

impl View for Action {
    type V = ActionView;

    open spec fn view(&self) -> ActionView {
        match self {
            Action::CheckExists(path) => ActionView::CheckExists(path@),
            Action::QueryWorkingDir => ActionView::QueryWorkingDir,
            Action::Edit { placeholder, editor } => ActionView::Edit {
                placeholder: placeholder@,
                editor: editor@,
            },
            Action::CreateDirs(path) => ActionView::CreateDirs(path@),
            Action::Rename { from, to } => ActionView::Rename { from: from@, to: to@ },
            Action::Stop(outcome) => ActionView::Stop(
                match outcome {
                    Ok(_) => Ok(()),
                    Err(error) => Err(error@),
                },
            ),
            Action::Halt => ActionView::Halt,
        }
    }
}

/// Where a destination that was given is to go.
#[derive(Debug, Clone, PartialEq, Eq)]
pub enum Placing {
    /// Nowhere: the rename ends in this error.
    Refused(RenameError),
    /// Where it says.
    AsGiven,
    /// Into this directory, the one that holds the source.
    Beside(String),
}

/// A `Placing` with its texts as sequences of characters.
pub enum PlacingView {
    Refused(RenameErrorView),
    AsGiven,
    Beside(Seq<char>),
}

impl View for Placing {
    type V = PlacingView;

    open spec fn view(&self) -> PlacingView {
        match self {
            Placing::Refused(error) => PlacingView::Refused(error@),
            Placing::AsGiven => PlacingView::AsGiven,
            Placing::Beside(dir) => PlacingView::Beside(dir@),
        }
    }
}

/// The state in `phase` that remembers `source` and `target`.
pub open spec fn awaiting(phase: Phase, source: Seq<char>, target: TargetView) -> StateView {
    StateView { phase, source, target }
}

/// The state in `phase` that remembers nothing.
pub open spec fn blank(phase: Phase) -> StateView {
    awaiting(phase, Seq::empty(), no_target())
}

/// The rename ends with `outcome`.
pub open spec fn stopped(outcome: Result<(), RenameErrorView>) -> (StateView, ActionView) {
    (blank(Phase::Finished), ActionView::Stop(outcome))
}

/// `source` in canonical form: joined to `working_dir` and cleaned, so that
/// `.` and `..` segments and repeated separators are gone. The file system
/// is not consulted, and links are not followed.
pub open spec fn resolved(working_dir: Seq<char>, source: Seq<char>) -> Seq<char> {
    cleaned_path(joined_path(working_dir, source))
}

/// Whether the working directory is asked for before anything else is done
/// with the source: it is when a canonical source was requested and the
/// source is relative.
pub open spec fn detour(request: RequestView, relative: bool) -> bool {
    request.canonical && relative
}

/// The last decision: rename, unless both paths are the same.
pub open spec fn settle(source: Seq<char>, target: TargetView) -> (StateView, ActionView) {
    if target.same_as_source {
        stopped(Ok(()))
    } else {
        (blank(Phase::Renaming), ActionView::Rename { from: source, to: target.path })
    }
}

/// What follows once nothing stands in the destination's way: on request,
/// and where the destination has a directory above it, that directory is
/// created first.
pub open spec fn prepare(request: RequestView, source: Seq<char>, target: TargetView) -> (
    StateView,
    ActionView,
) {
    if request.create_ancestors && target.parent is Some {
        (
            awaiting(Phase::CreatingAncestors, source, target),
            ActionView::CreateDirs(target.parent.unwrap()),
        )
    } else {
        settle(source, target)
    }
}

/// What follows once the destination is resolved: unless it may be
/// replaced, whether it exists is asked first.
pub open spec fn guard(request: RequestView, source: Seq<char>, target: TargetView) -> (
    StateView,
    ActionView,
) {
    if request.destructive {
        prepare(request, source, target)
    } else {
        (awaiting(Phase::CheckingDestination, source, target), ActionView::CheckExists(target.path))
    }
}

/// Where a destination that was `given`, by the request or by the editor,
/// is to go. An empty one is refused. Where only the name was asked for, it
/// goes into the directory of the source, which has to have one.
pub open spec fn placing_of(
    request: RequestView,
    given: Seq<char>,
    source_parent: Option<Seq<char>>,
) -> PlacingView {
    if given.len() == 0 {
        PlacingView::Refused(RenameErrorView::EmptyDestination)
    } else if request.name_only {
        match source_parent {
            Some(dir) => PlacingView::Beside(dir),
            None => PlacingView::Refused(RenameErrorView::NoParent),
        }
    } else {
        PlacingView::AsGiven
    }
}

/// What follows once the text to be shown in the editor is known: it is
/// offered for editing, unless there is none.
pub open spec fn offered(request: RequestView, source: Seq<char>, shown: Option<Seq<char>>) -> (
    StateView,
    ActionView,
) {
    match shown {
        Some(text) => (
            awaiting(Phase::Editing, source, no_target()),
            ActionView::Edit { placeholder: text, editor: request.editor },
        ),
        None => stopped(Err(RenameErrorView::NoFileName)),
    }
}

/// `destination` with what the path library says of it: the directory above
/// it, and whether it is the same path as `source`.
pub open spec fn surveyed(source: Seq<char>, destination: Seq<char>) -> TargetView {
    TargetView {
        path: destination,
        parent: parent_of(destination),
        same_as_source: same_path(source, destination),
    }
}

/// What follows once a destination has been `given`: it is placed, joined
/// to the directory of the source where it goes beside the source, and
/// then guarded.
pub open spec fn place(request: RequestView, source: Seq<char>, given: Seq<char>) -> (
    StateView,
    ActionView,
) {
    match placing_of(request, given, parent_of(source)) {
        PlacingView::Refused(error) => stopped(Err(error)),
        PlacingView::AsGiven => guard(request, source, surveyed(source, given)),
        PlacingView::Beside(dir) => guard(
            request,
            source,
            surveyed(source, joined_path(dir, given)),
        ),
    }
}

/// What follows once the source is resolved: a destination that the request
/// gives is taken, else one is asked for in the editor.
pub open spec fn propose(request: RequestView, source: Seq<char>) -> (StateView, ActionView) {
    match request.destination {
        Some(given) => place(request, source, given),
        None => offered(request, source, placeholder_text(source, request.name_only)),
    }
}

/// The state and the action that follow when `reply` is given in `state`.
///
/// A path exists when the reply is `Yes`, and does not otherwise. A change
/// has failed when the reply is `Failed`, and was made otherwise. Where a
/// text is asked for, any reply that carries none is a failure; for the
/// editor, a reply that carries neither text nor error counts as a failed
/// read-back.
pub open spec fn advance(request: RequestView, state: StateView, reply: ReplyView) -> (
    StateView,
    ActionView,
) {
    match state.phase {
        Phase::CheckingSource => if !(reply is Yes) {
            stopped(Err(RenameErrorView::SourceMissing { source: request.source }))
        } else if detour(request, relative_path(request.source)) {
            (blank(Phase::LocatingWorkingDir), ActionView::QueryWorkingDir)
        } else {
            propose(request, request.source)
        },
        Phase::LocatingWorkingDir => match reply {
            ReplyView::Text(dir) => propose(request, resolved(dir, request.source)),
            _ => stopped(Err(RenameErrorView::WorkingDirUnavailable)),
        },
        Phase::Editing => match reply {
            ReplyView::Text(given) => place(request, state.source, given),
            ReplyView::EditorFailed(error) => stopped(Err(RenameErrorView::Editor(error))),
            _ => stopped(Err(RenameErrorView::Editor(EditorErrorView::ReadBackFailed))),
        },
        Phase::CheckingDestination => if reply is Yes {
            stopped(
                Err(RenameErrorView::DestinationExists { destination: state.target.path }),
            )
        } else {
            prepare(request, state.source, state.target)
        },
        Phase::CreatingAncestors => if reply is Failed {
            stopped(Err(RenameErrorView::AncestorsNotCreated))
        } else {
            settle(state.source, state.target)
        },
        Phase::Renaming => if reply is Failed {
            stopped(Err(RenameErrorView::RenameFailed))
        } else {
            stopped(Ok(()))
        },
        Phase::Finished => (blank(Phase::Finished), ActionView::Halt),
    }
}

impl StateView {
    /// Whether the state is one that a plan can be in: it remembers a
    /// source and a destination only in the phases that need them, and what
    /// it remembers of the destination is what the path library says of it.
    pub open spec fn well_formed(self) -> bool {
        match self.phase {
            Phase::CheckingDestination | Phase::CreatingAncestors => self.target == surveyed(
                self.source,
                self.target.path,
            ),
            Phase::Editing => self.target == no_target(),
            _ => self == blank(self.phase),
        }
    }
}

/// A plan stays among the well-formed states: the state that a step hands
/// out is well-formed, whatever the reply, if the state it was given is.
pub proof fn states_stay_well_formed(request: RequestView, state: StateView, reply: ReplyView)
    requires
        state.well_formed(),
    ensures
        advance(request, state, reply).0.well_formed(),
{
}

/// A rename is asked for only between two paths that differ: where the
/// destination is the same path as the source, the plan ends well without
/// touching the file system.
pub proof fn rename_needs_distinct_paths(request: RequestView, state: StateView, reply: ReplyView)
    requires
        state.well_formed(),
    ensures
        advance(request, state, reply).1 matches ActionView::Rename { from, to } ==> !same_path(
            from,
            to,
        ),
{
}

/// Unless the request allows overwriting, nothing is changed on disk before
/// the destination was asked about: no step out of the phases that come
/// before that question creates a directory or renames, and the answer that
/// the destination exists ends the plan in `DestinationExists`.
pub proof fn guarded_destination_is_asked_about(
    request: RequestView,
    state: StateView,
    reply: ReplyView,
)
    requires
        !request.destructive,
    ensures
        ({
            let (next, action) = advance(request, state, reply);
            &&& state.phase == Phase::CheckingSource || state.phase == Phase::LocatingWorkingDir
                || state.phase == Phase::Editing ==> !(action is Rename) && !(action is CreateDirs)
                && next.phase != Phase::CreatingAncestors && next.phase != Phase::Renaming
            &&& state.phase == Phase::CheckingDestination && reply is Yes ==> action
                == ActionView::Stop(
                Err(RenameErrorView::DestinationExists { destination: state.target.path }),
            )
        }),
{
}

/// Every step brings the plan nearer to its end, so a rename is over after
/// at most six replies.
pub proof fn plan_moves_forward(request: RequestView, state: StateView, reply: ReplyView)
    requires
        state.phase != Phase::Finished,
    ensures
        actions_left(advance(request, state, reply).0.phase) < actions_left(state.phase),
{
}

/// A plan ends with `Stop`, and in no other way: the step that finishes a
/// plan hands out `Stop`, and `Stop` is handed out by no other step.
pub proof fn plan_ends_with_stop(request: RequestView, state: StateView, reply: ReplyView)
    ensures
        ({
            let (next, action) = advance(request, state, reply);
            action is Stop <==> state.phase != Phase::Finished && next.phase == Phase::Finished
        }),
{
}

fn no_target_exec() -> (target: Target)
    ensures
        target@ == no_target(),
{
    Target { path: String::new(), parent: None, same_as_source: false }
}

fn blank_exec(phase: Phase) -> (state: State)
    ensures
        state@ == blank(phase),
{
    State { phase, source: String::new(), target: no_target_exec() }
}

fn stopped_exec(outcome: Result<(), RenameError>) -> (next: (State, Action))
    ensures
        next.0@ == blank(Phase::Finished),
        next.1@ == (Action::Stop(outcome))@,
{
    (blank_exec(Phase::Finished), Action::Stop(outcome))
}

fn settle_exec(source: String, target: Target) -> (next: (State, Action))
    ensures
        next.0@ == settle(source@, target@).0,
        next.1@ == settle(source@, target@).1,
{
    if target.same_as_source {
        stopped_exec(Ok(()))
    } else {
        (blank_exec(Phase::Renaming), Action::Rename { from: source, to: target.path })
    }
}

/// Brings a relative `source` into canonical form under `working_dir`.
pub fn resolve(working_dir: &str, source: &str) -> (canonical: String)
    ensures
        canonical@ == resolved(working_dir@, source@),
{
    let joined = join(working_dir, source);
    clean(joined.as_str())
}

/// Asks the path library about `destination`.
fn survey(source: &str, destination: String) -> (target: Target)
    ensures
        target@ == surveyed(source@, destination@),
{
    let parent = parent(destination.as_str());
    let same_as_source = is_same(source, destination.as_str());
    Target { path: destination, parent, same_as_source }
}

impl Request {
    /// Decides whether the working directory is asked for, given whether the
    /// path library takes the source for `relative`.
    pub fn detours(&self, relative: bool) -> (asked: bool)
        ensures
            asked == detour(self@, relative),
    {
        self.canonical && relative
    }

    /// Decides what follows once the text to be shown in the editor is
    /// known, given as `shown` what was found to show of `source`.
    pub fn offer(&self, source: String, shown: Option<String>) -> (next: (State, Action))
        ensures
            next.0@ == offered(
                self@,
                source@,
                match shown {
                    Some(text) => Some(text@),
                    None => None,
                },
            ).0,
            next.1@ == offered(
                self@,
                source@,
                match shown {
                    Some(text) => Some(text@),
                    None => None,
                },
            ).1,
    {
        match shown {
            Some(text) => (
                State { phase: Phase::Editing, source, target: no_target_exec() },
                Action::Edit { placeholder: text, editor: self.editor.clone() },
            ),
            None => stopped_exec(Err(RenameError::NoFileName)),
        }
    }

    /// Decides where a destination that was `given` is to go, given as
    /// `source_parent` the directory that the path library found above the
    /// source.
    pub fn placing(&self, given: &str, source_parent: Option<String>) -> (chosen: Placing)
        ensures
            chosen@ == placing_of(
                self@,
                given@,
                match source_parent {
                    Some(dir) => Some(dir@),
                    None => None,
                },
            ),
    {
        if given.is_empty() {
            Placing::Refused(RenameError::EmptyDestination)
        } else if self.name_only {
            match source_parent {
                Some(dir) => Placing::Beside(dir),
                None => Placing::Refused(RenameError::NoParent),
            }
        } else {
            Placing::AsGiven
        }
    }

    fn prepare_exec(&self, source: String, target: Target) -> (next: (State, Action))
        ensures
            next.0@ == prepare(self@, source@, target@).0,
            next.1@ == prepare(self@, source@, target@).1,
    {
        if self.create_ancestors {
            match &target.parent {
                Some(dir) => {
                    let dir = dir.clone();
                    (
                        State { phase: Phase::CreatingAncestors, source, target },
                        Action::CreateDirs(dir),
                    )
                },
                None => settle_exec(source, target),
            }
        } else {
            settle_exec(source, target)
        }
    }

    /// Decides what follows once the destination is resolved, given as
    /// `target` the destination and what the path library says of it.
    pub fn toward(&self, source: String, target: Target) -> (next: (State, Action))
        ensures
            next.0@ == guard(self@, source@, target@).0,
            next.1@ == guard(self@, source@, target@).1,
    {
        if self.destructive {
            self.prepare_exec(source, target)
        } else {
            let asked = target.path.clone();
            (
                State { phase: Phase::CheckingDestination, source, target },
                Action::CheckExists(asked),
            )
        }
    }

    fn place_exec(&self, source: String, given: String) -> (next: (State, Action))
        ensures
            next.0@ == place(self@, source@, given@).0,
            next.1@ == place(self@, source@, given@).1,
    {
        let source_parent = parent(source.as_str());
        match self.placing(given.as_str(), source_parent) {
            Placing::Refused(error) => stopped_exec(Err(error)),
            Placing::AsGiven => {
                let target = survey(source.as_str(), given);
                self.toward(source, target)
            },
            Placing::Beside(dir) => {
                let target = survey(source.as_str(), join(dir.as_str(), given.as_str()));
                self.toward(source, target)
            },
        }
    }

    fn propose_exec(&self, source: String) -> (next: (State, Action))
        ensures
            next.0@ == propose(self@, source@).0,
            next.1@ == propose(self@, source@).1,
    {
        match &self.destination {
            Some(given) => self.place_exec(source, given.clone()),
            None => {
                let shown = placeholder(source.as_str(), self.name_only);
                self.offer(source, shown)
            },
        }
    }

    /// Opens the rename: whether the source exists is asked first.
    pub fn start(&self) -> (first: (State, Action))
        ensures
            first.0@ == blank(Phase::CheckingSource),
            first.0@.well_formed(),
            first.1@ == ActionView::CheckExists(self@.source),
    {
        (blank_exec(Phase::CheckingSource), Action::CheckExists(self.source.clone()))
    }

    /// Takes the reply to the action awaited in `state` and says what comes
    /// next.
    pub fn step(&self, state: State, reply: Reply) -> (next: (State, Action))
        ensures
            next.0@ == advance(self@, state@, reply@).0,
            next.1@ == advance(self@, state@, reply@).1,
            state@.well_formed() ==> next.0@.well_formed(),
    {
        proof {
            if state@.well_formed() {
                states_stay_well_formed(self@, state@, reply@);
            }
        }
        match state.phase {
            Phase::CheckingSource => match reply {
                Reply::Yes => {
                    if self.detours(is_relative(self.source.as_str())) {
                        (blank_exec(Phase::LocatingWorkingDir), Action::QueryWorkingDir)
                    } else {
                        self.propose_exec(self.source.clone())
                    }
                },
                _ => stopped_exec(
                    Err(RenameError::SourceMissing { source: self.source.clone() }),
                ),
            },
            Phase::LocatingWorkingDir => match reply {
                Reply::Text(dir) => self.propose_exec(
                    resolve(dir.as_str(), self.source.as_str()),
                ),
                _ => stopped_exec(Err(RenameError::WorkingDirUnavailable)),
            },
            Phase::Editing => match reply {
                Reply::Text(given) => self.place_exec(state.source, given),
                Reply::EditorFailed(error) => stopped_exec(Err(RenameError::Editor(error))),
                _ => stopped_exec(Err(RenameError::Editor(EditorError::ReadBackFailed))),
            },
            Phase::CheckingDestination => match reply {
                Reply::Yes => stopped_exec(
                    Err(RenameError::DestinationExists { destination: state.target.path }),
                ),
                _ => self.prepare_exec(state.source, state.target),
            },
            Phase::CreatingAncestors => match reply {
                Reply::Failed => stopped_exec(Err(RenameError::AncestorsNotCreated)),
                _ => settle_exec(state.source, state.target),
            },
            Phase::Renaming => match reply {
                Reply::Failed => stopped_exec(Err(RenameError::RenameFailed)),
                _ => stopped_exec(Ok(())),
            },
            Phase::Finished => (blank_exec(Phase::Finished), Action::Halt),
        }
    }
}

} // verus!
