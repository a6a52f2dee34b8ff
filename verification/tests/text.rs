use lazytrees::text::{
    cat, cat3, check_dash, check_space, from_chars, join_from, lines, parse_number, repeated, same,
    starts_with, strip_prefix, to_ascii_lowercase, to_chars, to_decimal, trim, trim_dashes,
};

fn samples() -> Vec<String> {
    let mut all = vec![String::new()];
    let mut last = vec![String::new()];
    for _ in 0..6 {
        let mut longer = Vec::new();
        for text in &last {
            for c in ['\n', '\r', '-', 'é'] {
                longer.push(format!("{text}{c}"));
            }
        }
        all.extend(longer.iter().cloned());
        last = longer;
    }
    all
}

#[test]
fn white_space_is_what_unicode_calls_so() {
    for code in 0..=0x10FFFFu32 {
        if let Some(c) = char::from_u32(code) {
            assert_eq!(check_space(c), c.is_whitespace(), "{code:x}");
        }
    }
    assert!(check_dash('-'));
    assert!(!check_dash('_'));
}

#[test]
fn texts_are_cut_as_std_cuts_them() {
    for text in samples() {
        let theirs: Vec<String> = text.lines().map(|line| line.to_owned()).collect();
        assert_eq!(lines(&text), theirs, "{text:?}");
        assert_eq!(trim(&text), text.trim(), "{text:?}");
        assert_eq!(trim_dashes(&text), text.trim_matches('-'), "{text:?}");
    }
}

#[test]
fn trimming_takes_white_space_at_both_ends() {
    assert_eq!(trim(" \t\n a b \u{2003}\u{85}"), "a b");
    assert_eq!(trim(""), "");
    assert_eq!(trim(" \n "), "");
    assert_eq!(trim_dashes("--a-b-"), "a-b");
    assert_eq!(trim_dashes("---"), "");
}

#[test]
fn lines_read_back() {
    assert_eq!(lines("a\nb\n"), vec!["a", "b"]);
    assert_eq!(lines("a\nb"), vec!["a", "b"]);
    assert_eq!(lines("a\r\n\r\nb\r"), vec!["a", "", "b\r"]);
    assert_eq!(lines("\n"), vec![""]);
}

#[test]
fn texts_are_put_together_and_taken_apart() {
    assert_eq!(cat("ä", "b"), "äb");
    assert_eq!(cat3("a", "", "c"), "ac");
    assert!(same("a", "a"));
    assert!(!same("a", "ab"));
    assert_eq!(to_chars("aé"), vec!['a', 'é']);
    assert_eq!(from_chars(&vec!['a', 'b', 'c'], 1, 3), "bc");
    assert!(starts_with("abc", "ab"));
    assert!(starts_with("abc", ""));
    assert!(!starts_with("ab", "abc"));
    assert_eq!(strip_prefix("abc", "ab").as_deref(), Some("c"));
    assert_eq!(strip_prefix("abc", "b"), None);
    let parts = vec!["a".to_owned(), "b".to_owned(), "c".to_owned()];
    assert_eq!(join_from(&parts, 0, ", "), "a, b, c");
    assert_eq!(join_from(&parts, 2, ", "), "c");
    assert_eq!(join_from(&parts, 3, ", "), "");
    assert_eq!(repeated('─', 3), "───");
    assert_eq!(to_ascii_lowercase("YeSÄ"), "yesÄ");
}

#[test]
fn numbers_are_written_and_read() {
    for n in [0u64, 1, 9, 10, 99, 100, 12345, u64::MAX] {
        assert_eq!(to_decimal(n), n.to_string());
    }
    for text in [
        "", "0", "7", "+7", "-7", "++7", "+", "007", "1 ", "x", "1x", "18446744073709551615",
        "18446744073709551616", "99999999999999999999999", "+18446744073709551615", "٣",
    ] {
        assert_eq!(parse_number(text), text.parse::<usize>().ok(), "{text:?}");
    }
}
