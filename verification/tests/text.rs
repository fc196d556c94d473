use desktop_helper::text::{
    char_is_space, contains, join, lines, same_text, split_whitespace, starts_with_after_spaces,
    strip_prefix, text_is_blank, to_chars, trim_text,
};

fn owned(items: &[&str]) -> Vec<String> {
    items.iter().map(|s| s.to_string()).collect()
}

#[test]
fn white_space_is_the_unicode_property() {
    let mut code: u32 = 0;
    while code <= 0x10FFFF {
        if let Some(c) = char::from_u32(code) {
            assert_eq!(char_is_space(c), c.is_whitespace(), "U+{:04X}", code);
        }
        code += 1;
    }
}

#[test]
fn words_are_what_std_splits() {
    let samples = [
        "",
        " ",
        "sudo dscacheutil -flushcache",
        "  leading and trailing  ",
        "tabs\tand\nnewlines\r\nmixed",
        "networksetup -getairportpower en0 > /tmp/wifi_state_backup.txt",
        "a\u{2003}b\u{00A0}c\u{200B}d",
        "if grep -q 'On' /tmp/x; then a; else b; fi",
    ];
    for sample in samples {
        let expected: Vec<String> = sample.split_whitespace().map(|w| w.to_string()).collect();
        assert_eq!(split_whitespace(sample), expected, "{:?}", sample);
    }
}

#[test]
fn shell_syntax_is_not_interpreted() {
    assert_eq!(
        split_whitespace("echo \"a b\" | cat && ls $HOME"),
        owned(&["echo", "\"a", "b\"", "|", "cat", "&&", "ls", "$HOME"])
    );
}

#[test]
fn blank_texts() {
    assert!(text_is_blank(""));
    assert!(text_is_blank(" \t\r\n\u{3000}"));
    assert!(!text_is_blank("  x "));
}

#[test]
fn characters_one_by_one() {
    assert_eq!(to_chars("a\u{00E9}\u{1F504}"), vec!['a', '\u{00E9}', '\u{1F504}']);
    assert_eq!(to_chars(""), Vec::<char>::new());
}

#[test]
fn same_text_compares_contents() {
    assert!(same_text("macos", "macos"));
    assert!(!same_text("macos", "macOS"));
    assert!(same_text("", ""));
}

#[test]
fn contains_finds_a_piece_anywhere() {
    assert!(contains("Firewall is enabled. (State = 1)", "enabled"));
    assert!(contains("Firewall is enabled. (State = 1)", "State = 1"));
    assert!(contains("abc", ""));
    assert!(contains("", ""));
    assert!(contains("abc", "abc"));
    assert!(contains("aab", "ab"));
    assert!(!contains("abc", "abcd"));
    assert!(!contains("Firewall is disabled", "enabled"));
    assert!(!contains("", "a"));
}

#[test]
fn trim_cuts_both_ends() {
    let samples = ["", "   ", " a ", "a", "\t a b \n", "\u{00A0}x\u{2003}", "x  "];
    for sample in samples {
        assert_eq!(trim_text(sample), sample.trim(), "{:?}", sample);
    }
}

#[test]
fn first_visible_character() {
    assert!(starts_with_after_spaces("   * Label: macOS", '*'));
    assert!(starts_with_after_spaces("*", '*'));
    assert!(!starts_with_after_spaces("  a *", '*'));
    assert!(!starts_with_after_spaces("   ", '*'));
    assert!(!starts_with_after_spaces("", '*'));
}

#[test]
fn lines_are_what_std_gives() {
    let samples = [
        "",
        "\n",
        "a",
        "a\n",
        "a\nb",
        "a\r\nb\r\n",
        "a\rb\n",
        "a\n\nb\n",
        "\r\n",
        "last\r",
        "x\r\r\ny",
        "\n\n",
    ];
    for sample in samples {
        let expected: Vec<String> = sample.lines().map(|l| l.to_string()).collect();
        assert_eq!(lines(sample), expected, "{:?}", sample);
    }
}

#[test]
fn join_puts_the_separator_between() {
    assert_eq!(join(&owned(&[]), ", "), "");
    assert_eq!(join(&owned(&["Sophos"]), ", "), "Sophos");
    assert_eq!(join(&owned(&["Sophos", "ESET", "AVG"]), ", "), "Sophos, ESET, AVG");
}

#[test]
fn strip_prefix_cuts_the_start() {
    assert_eq!(strip_prefix("Bearer abc", "Bearer "), Some("abc".to_string()));
    assert_eq!(strip_prefix("Bearer ", "Bearer "), Some(String::new()));
    assert_eq!(strip_prefix("bearer abc", "Bearer "), None);
    assert_eq!(strip_prefix("Bear", "Bearer "), None);
    assert_eq!(strip_prefix("abc", ""), Some("abc".to_string()));
}
