use sqlite_ui::target::{build_connection_str, finish_target, sanitize, DbPath, PathError};

fn target(path: &str) -> String {
    build_connection_str(Some(DbPath::Utf8(path.to_string()))).unwrap()
}

#[test]
fn memory_target_is_shared_literal() {
    let a = build_connection_str(None).unwrap();
    let b = build_connection_str(None).unwrap();
    assert_eq!(a, "sqlite:file::memory:?cache=shared");
    assert_eq!(a, b);
}

#[test]
fn question_mark_and_hash_are_encoded() {
    assert_eq!(target("a?b#c"), "sqlite:file:a%3fb%23c");
    assert_eq!(target("??##"), "sqlite:file:%3f%3f%23%23");
}

#[test]
fn backslashes_become_slashes() {
    assert_eq!(target("dir\\sub\\file.db"), "sqlite:file:dir/sub/file.db");
}

#[test]
fn separator_runs_collapse() {
    assert_eq!(target("//home///user////db.sqlite"), "sqlite:file:/home/user/db.sqlite");
    assert_eq!(target("a\\\\/b"), "sqlite:file:a/b");
}

#[test]
fn drive_letter_gets_leading_separator() {
    assert_eq!(target("C:\\Users\\me\\db.sqlite"), "sqlite:file:/C:/Users/me/db.sqlite");
    assert_eq!(target("x:db"), "sqlite:file:/x:db");
}

#[test]
fn no_drive_for_longer_prefix() {
    assert_eq!(target("ab:c"), "sqlite:file:ab:c");
    assert_eq!(target("/C:/db"), "sqlite:file:/C:/db");
}

#[test]
fn plain_path_is_kept() {
    assert_eq!(target("/tmp/test.db"), "sqlite:file:/tmp/test.db");
    assert_eq!(target(""), "sqlite:file:");
    assert_eq!(target("é/ü.db"), "sqlite:file:é/ü.db");
}

#[test]
fn non_utf8_path_is_rejected() {
    let r = build_connection_str(Some(DbPath::NotUtf8("bad\u{fffd}.db".to_string())));
    match r {
        Err(PathError::NotUtf8 { display }) => assert_eq!(display, "bad\u{fffd}.db"),
        other => panic!("unexpected {:?}", other),
    }
}

#[test]
fn sanitize_is_idempotent() {
    let once = sanitize("C:\\a//b?c#d\\\\e");
    assert_eq!(once, "C:/a/b%3fc%23d/e");
    assert_eq!(sanitize(&once), once);
}

#[test]
fn finish_target_prefixes() {
    assert_eq!(finish_target("C:/x", true), "sqlite:file:/C:/x");
    assert_eq!(finish_target("C:/x", false), "sqlite:file:C:/x");
}
