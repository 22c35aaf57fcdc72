use common::home::{expand_from, expand_with_home, lookup_as_text, names_home};
use common::{ExpandUser, HomeDirError};

fn text(s: &str) -> String {
    s.to_string()
}

fn home() -> Result<String, HomeDirError> {
    Ok(text("/home/u"))
}

#[test]
fn plain_paths_expand_to_themselves() {
    for path in ["", "foo", "foo/bar", "/etc/passwd", "./~", "a~", " ~", "/~/x", "\\~"] {
        assert_eq!(expand_from(text(path), home()), Ok(text(path)));
        assert_eq!(expand_from(text(path), Err(HomeDirError::NoHomeDir)), Ok(text(path)));
        assert_eq!(expand_from(text(path), Err(HomeDirError::NonUtf8HomeDir)), Ok(text(path)));
        assert_eq!(expand_with_home(text(path), text("/home/u")), text(path));
        assert!(!names_home(path));
    }
}

#[test]
fn plain_paths_ignore_the_environment() {
    for path in ["", "foo", "foo/bar", "/etc/passwd", "~foo", "~~", "~.config"] {
        assert_eq!(text(path).expand_user(), Ok(text(path)));
    }
}

#[test]
fn marker_alone_is_the_home_directory() {
    assert_eq!(expand_from(text("~"), home()), Ok(text("/home/u")));
    assert_eq!(expand_from(text("~"), Ok(text("/home/u/"))), Ok(text("/home/u/")));
    assert_eq!(expand_from(text("~"), Ok(text(""))), Ok(text("")));
    assert_eq!(expand_with_home(text("~"), text("C:\\Users\\u")), text("C:\\Users\\u"));
    assert!(names_home("~"));
}

#[test]
fn marker_and_slash_keep_the_rest() {
    assert_eq!(expand_from(text("~/foo/bar"), home()), Ok(text("/home/u/foo/bar")));
    assert_eq!(expand_from(text("~/"), home()), Ok(text("/home/u/")));
    assert_eq!(expand_from(text("~//x"), home()), Ok(text("/home/u//x")));
    assert_eq!(expand_from(text("~/~"), home()), Ok(text("/home/u/~")));
    assert!(names_home("~/foo/bar"));
}

#[test]
fn marker_and_backslash_keep_the_rest() {
    let home = text("C:\\Users\\u");
    assert_eq!(
        expand_from(text("~\\foo\\bar"), Ok(home.clone())),
        Ok(text("C:\\Users\\u\\foo\\bar"))
    );
    assert_eq!(expand_from(text("~\\"), Ok(home)), Ok(text("C:\\Users\\u\\")));
    assert!(names_home("~\\foo\\bar"));
}

#[test]
fn separator_style_is_not_converted() {
    assert_eq!(expand_from(text("~\\a/b"), home()), Ok(text("/home/u\\a/b")));
}

#[test]
fn marker_inside_a_name_is_ordinary() {
    for path in ["~foo", "~foo/bar", "~~", "~ /x", "~.", "~é/x"] {
        assert_eq!(expand_from(text(path), home()), Ok(text(path)));
        assert_eq!(expand_from(text(path), Err(HomeDirError::NoHomeDir)), Ok(text(path)));
        assert!(!names_home(path));
    }
}

#[test]
fn text_that_is_not_ascii_is_kept() {
    assert_eq!(
        expand_from(text("~/été/日本"), Ok(text("/home/zoë"))),
        Ok(text("/home/zoë/été/日本"))
    );
}

#[test]
fn missing_home_fails_a_marked_path() {
    for path in ["~", "~/", "~/foo/bar", "~\\foo"] {
        assert_eq!(
            expand_from(text(path), Err(HomeDirError::NoHomeDir)),
            Err(HomeDirError::NoHomeDir)
        );
    }
}

#[test]
fn unreadable_home_fails_a_marked_path() {
    for path in ["~", "~/", "~/foo/bar", "~\\foo"] {
        assert_eq!(
            expand_from(text(path), Err(HomeDirError::NonUtf8HomeDir)),
            Err(HomeDirError::NonUtf8HomeDir)
        );
    }
}

fn home_as_the_environment_has_it() -> Result<String, HomeDirError> {
    match dirs::home_dir() {
        None => Err(HomeDirError::NoHomeDir),
        Some(dir) => match dir.to_str() {
            None => Err(HomeDirError::NonUtf8HomeDir),
            Some(dir) => Ok(dir.to_string()),
        },
    }
}

#[test]
fn marker_alone_follows_the_environment() {
    assert_eq!(text("~").expand_user(), home_as_the_environment_has_it());
}

#[test]
fn marked_path_follows_the_environment() {
    let expected = home_as_the_environment_has_it().map(|dir| format!("{dir}/foo/bar"));
    assert_eq!(text("~/foo/bar").expand_user(), expected);
    if let Ok(path) = expected {
        assert_ne!(path, "~/foo/bar");
        assert!(path.ends_with("/foo/bar"));
    }
}

#[test]
fn errors_are_worded() {
    assert_eq!(HomeDirError::NoHomeDir.message(), "No home directory set");
    assert_eq!(
        HomeDirError::NonUtf8HomeDir.message(),
        "Home directory path contains invalid unicode characters"
    );
}

#[test]
fn errors_compare_and_copy() {
    let error = HomeDirError::NoHomeDir;
    let copy = error;
    assert_eq!(error, copy);
    assert_ne!(HomeDirError::NoHomeDir, HomeDirError::NonUtf8HomeDir);
    assert_eq!(format!("{:?}", HomeDirError::NonUtf8HomeDir), "NonUtf8HomeDir");
}

#[test]
fn lookup_without_a_home_is_an_error() {
    assert_eq!(lookup_as_text(None), Err(HomeDirError::NoHomeDir));
}

#[test]
fn lookup_of_a_home_that_is_not_text_is_an_error() {
    assert_eq!(lookup_as_text(Some(None)), Err(HomeDirError::NonUtf8HomeDir));
}

#[test]
fn lookup_of_a_home_is_its_text() {
    assert_eq!(lookup_as_text(Some(Some(text("/home/u")))), Ok(text("/home/u")));
    assert_eq!(lookup_as_text(Some(Some(text("")))), Ok(text("")));
    assert_eq!(
        expand_from(text("~/x"), lookup_as_text(Some(Some(text("/home/zoë/"))))),
        Ok(text("/home/zoë//x"))
    );
    assert_eq!(
        expand_from(text("~/x"), lookup_as_text(Some(None))),
        Err(HomeDirError::NonUtf8HomeDir)
    );
}
