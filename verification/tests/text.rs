use termhost::text::{
    decimal, eq_ignore_ascii_case, extract_exe_token, is_whitespace, quote, starts_with, trimmed,
};

#[test]
fn white_space_is_what_std_says() {
    for code in 0..=0x10ffff {
        if let Some(c) = char::from_u32(code) {
            assert_eq!(is_whitespace(c), c.is_whitespace(), "{:x}", code);
        }
    }
}

#[test]
fn trimming_is_what_std_does() {
    for s in ["", " ", "a", " a b ", "\t\r\n\u{a0}x\u{2003}", "\u{3000}"] {
        assert_eq!(trimmed(s), s.trim());
    }
}

#[test]
fn exe_token_between_quotes() {
    assert_eq!(
        extract_exe_token("\"C:\\path\\with spaces.exe\" --args"),
        "C:\\path\\with spaces.exe"
    );
    assert_eq!(extract_exe_token("  \"C:\\a b.exe\"  "), "C:\\a b.exe");
    assert_eq!(extract_exe_token("\"\" x"), "");
}

#[test]
fn exe_token_without_quotes() {
    assert_eq!(extract_exe_token("C:\\path\\no-spaces.exe"), "C:\\path\\no-spaces.exe");
    assert_eq!(extract_exe_token("C:\\path\\no-spaces.exe --args"), "C:\\path\\no-spaces.exe");
    assert_eq!(extract_exe_token("\tC:\\a.exe\u{a0}-x"), "C:\\a.exe");
    assert_eq!(extract_exe_token(""), "");
    assert_eq!(extract_exe_token("   "), "");
}

#[test]
fn exe_token_with_an_open_quote() {
    assert_eq!(extract_exe_token("\"C:\\a b.exe"), "\"C:\\a");
    assert_eq!(extract_exe_token("\""), "\"");
}

#[test]
fn quoted_path_reads_back() {
    for path in ["C:\\Program Files\\WezTerm\\wezterm-gui.exe", "", " x ", "ü.exe"] {
        assert_eq!(quote(path), format!("\"{}\"", path));
        assert_eq!(extract_exe_token(&quote(path)), path);
    }
}

#[test]
fn case_is_ignored_for_ascii_only() {
    assert!(eq_ignore_ascii_case("{AbC-9}", "{aBc-9}"));
    assert!(eq_ignore_ascii_case("{aBc-9}", "{AbC-9}"));
    assert!(!eq_ignore_ascii_case("{abc}", "{abd}"));
    assert!(!eq_ignore_ascii_case("{abc}", "{abc"));
    assert!(!eq_ignore_ascii_case("Ä", "ä"));
    assert!(eq_ignore_ascii_case("[", "["));
    assert!(!eq_ignore_ascii_case("[", "{"));
    assert!(!eq_ignore_ascii_case("@", "`"));
}

#[test]
fn prefixes() {
    assert!(starts_with("wt-release", "wt-"));
    assert!(starts_with("wt-", "wt-"));
    assert!(starts_with("x", ""));
    assert!(!starts_with("wt", "wt-"));
    assert!(!starts_with("wx-release", "wt-"));
}

#[test]
fn numbers_in_decimal() {
    for n in [0, 7, 10, 105, 4_294_967_295] {
        assert_eq!(decimal(n), format!("{}", n));
    }
}
