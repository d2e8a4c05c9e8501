use xrepotui::text::{first_line, same_text, split_lines, str_contains, take_chars, trim};

#[test]
fn lines_like_std() {
    for s in ["", "a", "a\n", "a\nb", "a\r\nb\r\n", "\n\nx", "a\rb\n", "end\r"] {
        let expected: Vec<String> = s.lines().map(|l| l.to_string()).collect();
        assert_eq!(split_lines(s), expected, "input {:?}", s);
    }
}

#[test]
fn first_line_and_take() {
    assert_eq!(first_line("title\nbody"), "title");
    assert_eq!(first_line(""), "");
    assert_eq!(take_chars("h\u{e9}llo", 2), "h\u{e9}");
    assert_eq!(take_chars("ab", 7), "ab");
}

#[test]
fn trim_like_std() {
    for s in ["", "  ", " a b \n", "\u{3000}x\t"] {
        assert_eq!(trim(s), s.trim());
    }
}

#[test]
fn substring_search() {
    assert!(str_contains("abc", ""));
    assert!(str_contains("abc", "bc"));
    assert!(!str_contains("abc", "cd"));
    assert!(same_text("x", "x"));
    assert!(!same_text("x", "xy"));
}

#[test]
fn white_space_is_the_std_set() {
    for c in (0u32..=0x10ffff).filter_map(char::from_u32) {
        let s = format!("x{c}");
        let expected = if c.is_whitespace() { "x".to_string() } else { s.clone() };
        assert_eq!(trim(&s), expected, "character U+{:04X}", c as u32);
    }
}
