use lazytrees::shell::shell_quote_path;

/// What a shell makes of one word.
fn read_word(word: &str) -> String {
    let mut text = String::new();
    let mut quoted = false;
    let mut chars = word.chars();
    while let Some(c) = chars.next() {
        match c {
            '\'' => quoted = !quoted,
            '\\' if !quoted => text.push(chars.next().expect("a character")),
            other => text.push(other),
        }
    }
    assert!(!quoted);
    text
}

#[test]
fn plain_paths_stay_as_they_are() {
    assert_eq!(shell_quote_path("/src/repo-worktrees/a_b.c"), "/src/repo-worktrees/a_b.c");
}

#[test]
fn other_paths_are_quoted() {
    assert_eq!(shell_quote_path("/a b"), "'/a b'");
    assert_eq!(shell_quote_path("it's"), "'it'\\''s'");
    assert_eq!(shell_quote_path(""), "''");
}

#[test]
fn a_shell_reads_the_path_back() {
    for path in ["/a", "/a b", "it's", "''", "\\'", "$HOME/`x`", "a\nb", "ä*?", "~"] {
        assert_eq!(read_word(&shell_quote_path(path)), path);
    }
}
