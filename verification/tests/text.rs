use claudegauge::text::{char_is_whitespace, first_line, parse_u64, remove_separators, text_eq, trim};

#[test]
fn text_helpers() {
    assert!(text_eq("dark", "dark"));
    assert!(!text_eq("dark", "Dark"));
    assert!(!text_eq("dar", "dark"));
    assert!(text_eq("", ""));
    assert_eq!(trim("  a b \t\n"), "a b");
    assert_eq!(trim("\u{3000}x\u{2009}"), "x");
    assert_eq!(trim("   "), "");
    assert_eq!(remove_separators("1,000_000"), "1000000");
    assert_eq!(remove_separators("é,_ü"), "éü");
    assert_eq!(parse_u64("+0"), Some(0));
    assert_eq!(parse_u64("99999999999999999999"), None);
}

#[test]
fn whitespace_matches_std_on_every_char() {
    for code in 0u32..=0x10FFFF {
        if let Some(c) = char::from_u32(code) {
            assert_eq!(char_is_whitespace(c), c.is_whitespace(), "on U+{:04X}", code);
        }
    }
}

#[test]
fn first_line_matches_std_lines() {
    for s in ["", "a", "a\nb", "a\r\nb", "\n", "\r\n", "x\r", "x\ry\nz", "\r", "ab\r\r\n",
        "one\ntwo\n", "é\r\n"]
    {
        assert_eq!(first_line(s), s.lines().next().map(|l| l.to_string()), "on {:?}", s);
    }
}

#[test]
fn trim_on_concrete_whitespace() {
    assert_eq!(trim("\u{85}\u{a0}2m\u{205f}"), "2m");
    assert_eq!(trim("\u{200b}2m"), "\u{200b}2m");
}
