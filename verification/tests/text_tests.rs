use git_partial::text::{abbreviate, contains_char, copy_strings, glue, lines, trim, white_space};

#[test]
fn trim_removes_white_space_at_both_ends_only() {
    assert_eq!(trim("  a b \n"), "a b");
    assert_eq!(trim("\t\r\nx"), "x");
    assert_eq!(trim("x"), "x");
    assert_eq!(trim(""), "");
    assert_eq!(trim(" \n\t "), "");
    assert_eq!(trim("\u{a0}\u{3000}é \u{2003}"), "é");
}

#[test]
fn trim_agrees_with_the_standard_library() {
    for text in ["", " ", "a", " a", "a ", " a b ", "\n\na\n", "\u{85}a\u{1680}", "\u{200b}a"] {
        assert_eq!(trim(text), text.trim());
    }
}

#[test]
fn white_space_is_that_of_unicode() {
    for code in 0u32..0x3100 {
        if let Some(c) = char::from_u32(code) {
            assert_eq!(white_space(c), c.is_whitespace());
        }
    }
}

#[test]
fn lines_split_at_line_feeds() {
    assert_eq!(lines("a\nb"), vec!["a".to_string(), "b".to_string()]);
    assert_eq!(lines("a\nb\n"), vec!["a".to_string(), "b".to_string()]);
    assert_eq!(lines("a\r\nb\r\n"), vec!["a".to_string(), "b".to_string()]);
    assert_eq!(lines("a\n\nb"), vec!["a".to_string(), "".to_string(), "b".to_string()]);
    assert_eq!(lines(""), Vec::<String>::new());
    assert_eq!(lines("\n"), vec!["".to_string()]);
    assert_eq!(lines("a\r"), vec!["a\r".to_string()]);
    assert_eq!(lines("a\rb\n"), vec!["a\rb".to_string()]);
}

#[test]
fn lines_agree_with_the_standard_library() {
    for text in ["", "\n", "\r\n", "a", "a\n", "a\r\n\r\nb", "\r", "\n\n", "é\nü\r\n", "a\r\r\n"] {
        let expected: Vec<String> = text.lines().map(|l| l.to_string()).collect();
        assert_eq!(lines(text), expected);
    }
}

#[test]
fn abbreviate_keeps_seven_characters() {
    assert_eq!(abbreviate("0123456789abcdef"), "0123456");
    assert_eq!(abbreviate("0123456"), "0123456");
    assert_eq!(abbreviate("abc123"), "abc123");
    assert_eq!(abbreviate(""), "");
    assert_eq!(abbreviate("<unknown>"), "<unknow");
    assert_eq!(abbreviate("ääääääääää"), "äääääää");
}

#[test]
fn contains_char_finds_a_character() {
    assert!(contains_char("src/main.rs", '/'));
    assert!(!contains_char("README.md", '/'));
    assert!(!contains_char("", 'a'));
    assert!(contains_char("é*", '*'));
}

#[test]
fn concat_and_copy() {
    assert_eq!(glue("origin/", "main"), "origin/main");
    assert_eq!(glue("", ""), "");
    let items = vec!["a".to_string(), "b".to_string()];
    assert_eq!(copy_strings(&items), items);
}
