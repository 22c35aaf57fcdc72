use common::{ExpandUser, HomeDirError, SegmentedPath};

fn path(segments: &[&str]) -> SegmentedPath {
    SegmentedPath { segments: segments.iter().map(|s| s.as_bytes().to_vec()).collect() }
}

#[test]
fn single_marker_is_exactly_home() {
    let home = path(&["/", "home", "u"]);
    assert_eq!(path(&["~"]).expand_from(Some(home.clone())), Ok(home));
    assert_eq!(path(&["~"]).expand_from(Some(path(&[]))), Ok(path(&[])));
    assert!(path(&["~"]).begins_with_marker());
}

#[test]
fn segments_after_the_marker_are_appended() {
    let home = path(&["/", "home", "u"]);
    assert_eq!(
        path(&["~", "foo", "bar"]).expand_from(Some(home.clone())),
        Ok(path(&["/", "home", "u", "foo", "bar"]))
    );
    assert_eq!(
        path(&["~", "..", "~"]).expand_from(Some(home)),
        Ok(path(&["/", "home", "u", "..", "~"]))
    );
}

#[test]
fn unmarked_paths_are_unchanged() {
    let home = path(&["/", "home", "u"]);
    for segments in [
        vec![],
        vec!["foo"],
        vec!["/", "~"],
        vec!["~foo", "bar"],
        vec!["~~"],
        vec![".", "~"],
        vec!["", "~"],
    ] {
        let given = path(&segments);
        assert!(!given.begins_with_marker());
        assert_eq!(given.clone().expand_from(Some(home.clone())), Ok(given.clone()));
        assert_eq!(given.clone().expand_from(None), Ok(given.clone()));
        assert_eq!(given.clone().expand_user(), Ok(given));
    }
}

#[test]
fn raw_bytes_pass_through() {
    let given = SegmentedPath { segments: vec![b"~".to_vec(), vec![0xff, 0xfe], vec![b'a']] };
    let home = SegmentedPath { segments: vec![b"/".to_vec(), vec![0x80, 0x81]] };
    let expected = SegmentedPath {
        segments: vec![b"/".to_vec(), vec![0x80, 0x81], vec![0xff, 0xfe], vec![b'a']],
    };
    assert_eq!(given.expand_from(Some(home)), Ok(expected));
}

#[test]
fn missing_home_fails_a_segmented_path() {
    assert_eq!(path(&["~"]).expand_from(None), Err(HomeDirError::NoHomeDir));
    assert_eq!(path(&["~", "foo"]).expand_from(None), Err(HomeDirError::NoHomeDir));
}

fn home_as_the_environment_has_it() -> Option<SegmentedPath> {
    dirs::home_dir().map(|dir| SegmentedPath {
        segments: dir.components().map(|c| c.as_os_str().as_encoded_bytes().to_vec()).collect(),
    })
}

#[test]
fn segmented_marker_follows_the_environment() {
    let expected = home_as_the_environment_has_it().ok_or(HomeDirError::NoHomeDir);
    assert_eq!(path(&["~"]).expand_user(), expected);
}

#[test]
fn segmented_path_follows_the_environment() {
    let expected = match home_as_the_environment_has_it() {
        None => Err(HomeDirError::NoHomeDir),
        Some(mut home) => {
            home.segments.push(b"foo".to_vec());
            home.segments.push(b"bar".to_vec());
            Ok(home)
        }
    };
    let given = path(&["~", "foo", "bar"]);
    assert_eq!(given.clone().expand_user(), expected);
    if let Ok(expanded) = expected {
        assert_ne!(expanded, given);
    }
}
