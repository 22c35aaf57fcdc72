use common::editor::{default_editor, placeholder, Action, EditorError, Event, Session, Stage};

fn text(s: &str) -> String {
    s.to_string()
}

fn session() -> Session {
    Session::new(text("notes.txt"), text("hx"))
}

fn finish(result: Result<String, EditorError>, discard_scratch: bool) -> (Stage, Action) {
    (Stage::Closed, Action::Finish { result, discard_scratch })
}

#[test]
fn session_keeps_what_it_was_given() {
    let session = Session::new(text("a b"), text("vi"));
    assert_eq!(session.placeholder, "a b");
    assert_eq!(session.editor, "vi");
}

#[test]
fn session_opens_with_the_scratch_file() {
    assert_eq!(session().start(), (Stage::Opening, Action::CreateScratch));
}

#[test]
fn untouched_placeholder_comes_back_unaltered() {
    let session = session();
    let (stage, action) = session.start();
    assert_eq!(action, Action::CreateScratch);
    let (stage, action) = session.step(stage, Event::Done);
    assert_eq!((stage, &action), (Stage::Writing, &Action::WritePlaceholder(text("notes.txt"))));
    let (stage, action) = session.step(stage, Event::Done);
    assert_eq!((stage, &action), (Stage::Editing, &Action::LaunchEditor(text("hx"))));
    let (stage, action) = session.step(stage, Event::Done);
    assert_eq!((stage, &action), (Stage::Reading, &Action::ReadBack));
    let next = session.step(stage, Event::Text(text("notes.txt")));
    assert_eq!(next, finish(Ok(text("notes.txt")), true));
}

#[test]
fn edited_text_is_not_trimmed() {
    let session = session();
    for read in ["renamed.txt\n", "  spaced  ", "", "\n", "a\r\n", "two\nlines\n"] {
        let next = session.step(Stage::Reading, Event::Text(text(read)));
        assert_eq!(next, finish(Ok(text(read)), true));
    }
}

#[test]
fn failed_scratch_file_ends_the_session() {
    let next = session().step(Stage::Opening, Event::Failed);
    assert_eq!(next, finish(Err(EditorError::ScratchFileCreateFailed), false));
}

#[test]
fn failed_write_ends_the_session() {
    let next = session().step(Stage::Writing, Event::Failed);
    assert_eq!(next, finish(Err(EditorError::PlaceholderWriteFailed), true));
}

#[test]
fn editor_that_cannot_be_launched_is_named() {
    let session = Session::new(text("notes.txt"), text("no-such-editor"));
    let next = session.step(Stage::Editing, Event::Failed);
    let error = EditorError::EditorLaunchFailed { editor: text("no-such-editor") };
    assert_eq!(next, finish(Err(error.clone()), true));
    assert!(error.message().contains("'no-such-editor'"));
}

#[test]
fn failed_read_back_ends_the_session() {
    let session = session();
    assert_eq!(
        session.step(Stage::Reading, Event::Failed),
        finish(Err(EditorError::ReadBackFailed), true)
    );
    assert_eq!(
        session.step(Stage::Reading, Event::Done),
        finish(Err(EditorError::ReadBackFailed), true)
    );
}

#[test]
fn scratch_file_is_discarded_exactly_when_there_is_one() {
    let session = session();
    for stage in [Stage::Opening, Stage::Writing, Stage::Editing, Stage::Reading, Stage::Closed] {
        for event in [Event::Done, Event::Failed, Event::Text(text("x"))] {
            let (next, action) = session.step(stage, event);
            if let Action::Finish { discard_scratch, .. } = action {
                assert_eq!(next, Stage::Closed);
                assert_eq!(discard_scratch, stage != Stage::Opening);
            } else if stage == Stage::Closed {
                assert_eq!((next, action), (Stage::Closed, Action::Halt));
            } else {
                assert_ne!(next, Stage::Closed);
            }
        }
    }
}

#[test]
fn text_counts_as_done_before_the_read_back() {
    let session = session();
    assert_eq!(
        session.step(Stage::Opening, Event::Text(text("x"))),
        (Stage::Writing, Action::WritePlaceholder(text("notes.txt")))
    );
    assert_eq!(
        session.step(Stage::Writing, Event::Text(text("x"))),
        (Stage::Editing, Action::LaunchEditor(text("hx")))
    );
    assert_eq!(
        session.step(Stage::Editing, Event::Text(text("x"))),
        (Stage::Reading, Action::ReadBack)
    );
}

#[test]
fn closed_session_stays_closed() {
    let session = session();
    for event in [Event::Done, Event::Failed, Event::Text(text("x"))] {
        assert_eq!(session.step(Stage::Closed, event), (Stage::Closed, Action::Halt));
    }
}

#[test]
fn editor_errors_are_worded() {
    assert_eq!(EditorError::ScratchFileCreateFailed.message(), "Failed to make temp file");
    assert_eq!(
        EditorError::PlaceholderWriteFailed.message(),
        "Failed to write placeholder to temp file"
    );
    assert_eq!(
        EditorError::EditorLaunchFailed { editor: text("hx") }.message(),
        "Failed to launch editor (it's set to 'hx'; is it in your $PATH?)"
    );
    assert_eq!(EditorError::ReadBackFailed.message(), "Failed to read from temp file");
}

#[test]
fn default_editor_is_helix() {
    assert_eq!(default_editor(), "hx");
}

#[test]
fn full_placeholder_is_the_source() {
    for source in ["/a/b/c.txt", "c.txt", "./x/../y.txt", "..", "", "/"] {
        assert_eq!(placeholder(source, false), Some(text(source)));
    }
}

#[test]
fn name_only_placeholder_is_the_final_segment() {
    assert_eq!(placeholder("/a/b/c.txt", true), Some(text("c.txt")));
    assert_eq!(placeholder("c.txt", true), Some(text("c.txt")));
    assert_eq!(placeholder("a/b/", true), Some(text("b")));
    assert_eq!(placeholder("a/b/.", true), Some(text("b")));
}

#[test]
fn name_only_placeholder_needs_a_final_segment() {
    assert_eq!(placeholder("..", true), None);
    assert_eq!(placeholder("a/..", true), None);
    assert_eq!(placeholder("/", true), None);
    assert_eq!(placeholder("", true), None);
}
