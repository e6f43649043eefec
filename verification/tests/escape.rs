use codex_mcp::windows_escape;

#[test]
fn test_windows_escape() {
    assert_eq!(windows_escape("hello"), "hello");
    assert_eq!(windows_escape("hello\nworld"), "hello\\nworld");
    assert_eq!(windows_escape("path\\to\\file"), "path\\\\to\\\\file");
    assert_eq!(windows_escape("say \"hello\""), "say \\\"hello\\\"");
}

#[test]
fn test_windows_escape_not_involutive() {
    // Escaping an already-escaped string escapes it again: the result of a
    // second application differs from the first.
    let once = windows_escape("path\\to\\file");
    let twice = windows_escape(&once);
    assert_eq!(once, "path\\\\to\\\\file");
    assert_eq!(twice, "path\\\\\\\\to\\\\\\\\file");
    assert_ne!(once, twice);

    let once = windows_escape("say \"hello\"");
    let twice = windows_escape(&once);
    assert_eq!(once, "say \\\"hello\\\"");
    assert_eq!(twice, "say \\\\\\\"hello\\\\\\\"");
    assert_ne!(once, twice);
}

#[test]
fn test_windows_escape_plain_text_unchanged() {
    // With no escapable character the escape is the identity, twice as well.
    let once = windows_escape("plain text 123");
    assert_eq!(once, "plain text 123");
    assert_eq!(windows_escape(&once), "plain text 123");
}

#[test]
fn test_windows_escape_control_characters() {
    assert_eq!(windows_escape("a\rb\tc"), "a\\rb\\tc");
    assert_eq!(windows_escape("x\u{8}y\u{c}z"), "x\\by\\fz");
    assert_eq!(windows_escape("it's"), "it\\'s");
}
