use docker_manager::completions::parse_lines;
use docker_manager::text::{chars_of, is_blank, same_text, white_space};

#[test]
fn white_space_agrees_with_std_on_every_char() {
    for code in 0u32..=0x10FFFF {
        if let Some(c) = char::from_u32(code) {
            assert_eq!(white_space(c), c.is_whitespace(), "code point {:#x}", code);
        }
    }
}

#[test]
fn blank_text_is_all_white_space() {
    assert!(is_blank(""));
    assert!(is_blank(" \t\r\n"));
    assert!(is_blank("\u{3000}\u{85}\u{a0}"));
    assert!(!is_blank("  x  "));
    assert!(!is_blank("\u{200b}"));
}

#[test]
fn same_text_compares_characters() {
    assert!(same_text("docker-ps", "docker-ps"));
    assert!(!same_text("docker-ps", "docker-rm"));
    assert!(!same_text("all", "all "));
}

#[test]
fn chars_of_keeps_every_character() {
    assert_eq!(chars_of("héllo"), vec!['h', 'é', 'l', 'l', 'o']);
    assert!(chars_of("").is_empty());
}

#[test]
fn parse_lines_handles_crlf_and_unicode_space() {
    let result = parse_lines("  alpha \r\n\r\n\u{a0}beta\u{3000}\n\t");
    assert_eq!(result, vec!["alpha", "beta"]);
}

#[test]
fn parse_lines_gives_clean_lines() {
    let input = "\n\n  web  \n\t db\t\n \n cache\r\nlast";
    let lines = parse_lines(input);
    assert_eq!(lines, vec!["web", "db", "cache", "last"]);
    for line in &lines {
        assert!(!line.is_empty());
        assert!(!line.contains('\n'));
        assert_eq!(line.trim(), line.as_str());
    }
}

#[test]
fn parse_lines_keeps_inner_spaces() {
    assert_eq!(parse_lines(" a b \n"), vec!["a b"]);
}

#[test]
fn parse_lines_of_blank_output_is_empty() {
    assert!(parse_lines(" \n \r\n\t").is_empty());
}

#[test]
fn parsing_joined_lines_gives_them_back() {
    for input in ["", "\n", " a \r\n\n b b \n\t", "web\ndb\ncache", "\u{3000}x\u{a0}\n"] {
        let lines = parse_lines(input);
        assert_eq!(parse_lines(&lines.join("\n")), lines, "{:?}", input);
    }
}
