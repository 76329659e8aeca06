use chat_agent::text::{decimal_text, qualified_name, split_qualified_name, text_eq, trim};

#[test]
fn trim_removes_white_space_at_both_ends() {
    assert_eq!(trim("  hello world \n\t"), "hello world");
    assert_eq!(trim("hello"), "hello");
    assert_eq!(trim(""), "");
    assert_eq!(trim(" \t\r\n "), "");
}

#[test]
fn trim_removes_unicode_white_space() {
    assert_eq!(trim("\u{3000}\u{a0}x y\u{2028}\u{85}"), "x y");
    assert_eq!(trim("\u{200b}x"), "\u{200b}x");
}

#[test]
fn trim_agrees_with_std_trim() {
    for s in ["  a ", "\u{1680}b\u{2000}", "\u{202f}\u{205f}", "c\u{200a}d", "\u{feff}e"] {
        assert_eq!(trim(s), s.trim());
    }
}

#[test]
fn trim_twice_is_trim_once() {
    let once = trim("  \u{a0}some text\t ");
    assert_eq!(trim(&once), once);
}

#[test]
fn split_takes_name_apart_at_first_separator() {
    assert_eq!(
        split_qualified_name("local__search_documentation"),
        Some(("local".to_string(), "search_documentation".to_string()))
    );
    assert_eq!(
        split_qualified_name("a___b"),
        Some(("a".to_string(), "_b".to_string()))
    );
    assert_eq!(
        split_qualified_name("x__y__z"),
        Some(("x".to_string(), "y__z".to_string()))
    );
    assert_eq!(split_qualified_name("__f"), Some(("".to_string(), "f".to_string())));
    assert_eq!(split_qualified_name("nosep"), None);
    assert_eq!(split_qualified_name("one_sep_only"), None);
    assert_eq!(split_qualified_name("_"), None);
}

#[test]
fn qualified_name_joins_with_separator() {
    assert_eq!(qualified_name("local", "search_documentation"), "local__search_documentation");
    assert_eq!(qualified_name("", "f"), "__f");
}

#[test]
fn split_undoes_qualify_for_plain_provider_names() {
    for (p, f) in [("local", "search"), ("mcp-server", "a__b"), ("", "x"), ("srv", "")] {
        let q = qualified_name(p, f);
        assert_eq!(split_qualified_name(&q), Some((p.to_string(), f.to_string())));
    }
}

#[test]
fn split_does_not_undo_qualify_for_provider_name_ending_in_underscore() {
    let q = qualified_name("a_", "b");
    assert_eq!(split_qualified_name(&q), Some(("a".to_string(), "_b".to_string())));
}

#[test]
fn decimal_text_writes_numbers_as_display_does() {
    assert_eq!(decimal_text(0), "0");
    assert_eq!(decimal_text(7), "7");
    assert_eq!(decimal_text(10), "10");
    assert_eq!(decimal_text(12345), "12345");
    assert_eq!(decimal_text(u32::MAX), u32::MAX.to_string());
}

#[test]
fn text_eq_compares_characters() {
    assert!(text_eq("abc", "abc"));
    assert!(!text_eq("abc", "abd"));
    assert!(!text_eq("abc", "ab"));
    assert!(text_eq("", ""));
}
