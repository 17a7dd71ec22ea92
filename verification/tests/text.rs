use twig::text::contains;
use twig::text::matches_at;
use twig::text::parse_decimal;
use twig::text::scan_back_inside;
use twig::text::scan_inside;
use twig::text::scan_outside;
use twig::text::split_fields;
use twig::text::split_lines;
use twig::text::starts_with;
use twig::text::to_chars;
use twig::text::to_string;
use twig::text::trimmed;
use twig::text::CharClass;

fn chars(s: &str) -> Vec<char> {
    s.chars().collect()
}

#[test]
fn to_chars_and_back() {
    assert_eq!(to_chars("h\u{e9}llo"), vec!['h', '\u{e9}', 'l', 'l', 'o']);
    assert_eq!(to_chars(""), Vec::<char>::new());
    let v = chars("h\u{e9}llo");
    assert_eq!(to_string(&v, 0, 5), "h\u{e9}llo");
    assert_eq!(to_string(&v, 1, 3), "\u{e9}l");
    assert_eq!(to_string(&v, 2, 2), "");
}

#[test]
fn whitespace_is_the_unicode_property() {
    for c in ['\t', '\n', '\u{b}', '\u{c}', '\r', ' ', '\u{85}', '\u{a0}', '\u{1680}', '\u{2000}',
        '\u{200a}', '\u{2028}', '\u{2029}', '\u{202f}', '\u{205f}', '\u{3000}']
    {
        assert!(CharClass::Whitespace.contains(c), "{:?}", c);
    }
    for c in ['a', '0', '%', '\u{8}', '\u{e}', '\u{1f}', '\u{200b}', '\u{180e}', '\u{feff}'] {
        assert!(!CharClass::Whitespace.contains(c), "{:?}", c);
    }
    let mut code: u32 = 0;
    while code < 0x3100 {
        if let Some(c) = char::from_u32(code) {
            assert_eq!(CharClass::Whitespace.contains(c), c.is_whitespace(), "{:x}", code);
        }
        code += 1;
    }
}

#[test]
fn other_classes() {
    assert!(CharClass::LineEnding.contains('\n'));
    assert!(CharClass::LineEnding.contains('\r'));
    assert!(!CharClass::LineEnding.contains(' '));
    assert!(CharClass::Only('/').contains('/'));
    assert!(!CharClass::Only('/').contains('\\'));
}

#[test]
fn scans_stop_at_the_first_change() {
    let v = chars("  ab  cd ");
    assert_eq!(scan_inside(&v, 0, CharClass::Whitespace), 2);
    assert_eq!(scan_outside(&v, 2, CharClass::Whitespace), 4);
    assert_eq!(scan_outside(&v, 4, CharClass::Whitespace), 4);
    assert_eq!(scan_inside(&v, 4, CharClass::Whitespace), 6);
    assert_eq!(scan_outside(&v, 6, CharClass::Whitespace), 8);
    assert_eq!(scan_inside(&v, 8, CharClass::Whitespace), 9);
    assert_eq!(scan_outside(&v, 9, CharClass::Whitespace), 9);
    assert_eq!(scan_back_inside(&v, 0, 9, CharClass::Whitespace), 8);
    assert_eq!(scan_back_inside(&v, 0, 8, CharClass::Whitespace), 8);
    assert_eq!(scan_back_inside(&v, 0, 2, CharClass::Whitespace), 0);
    assert_eq!(scan_back_inside(&v, 1, 2, CharClass::Whitespace), 1);
}

#[test]
fn split_fields_is_split_whitespace() {
    for s in ["", " ", "a", " a", "a ", "a b", "  a \t b\n\nc  ", "\u{3000}x\u{a0}y", "%begin 1 2"] {
        let expected: Vec<String> = s.split_whitespace().map(|t| t.to_string()).collect();
        assert_eq!(split_fields(&chars(s), CharClass::Whitespace), expected, "{:?}", s);
    }
}

#[test]
fn split_fields_on_a_separator_drops_empty_pieces() {
    let split = |s: &str| split_fields(&chars(s), CharClass::Only('/'));
    assert_eq!(split("/a//b/"), vec!["a".to_string(), "b".to_string()]);
    assert_eq!(split("a"), vec!["a".to_string()]);
    assert_eq!(split("///"), Vec::<String>::new());
    assert_eq!(split(""), Vec::<String>::new());
}

#[test]
fn split_lines_is_lines() {
    for s in [
        "",
        "\n",
        "a",
        "a\n",
        "a\nb",
        "a\r\nb\r\n",
        "a\r",
        "a\r\n\r",
        "\r\n",
        "\n\n",
        "a\n\nb\n",
        "a\r\r\nb",
        "worktree /x\nbranch refs/heads/m\n\nworktree /y\n",
    ] {
        let expected: Vec<String> = s.lines().map(|t| t.to_string()).collect();
        assert_eq!(split_lines(&chars(s)), expected, "{:?}", s);
    }
}

#[test]
fn trimmed_is_trim() {
    for s in ["", " ", "a", "  a b \n", "\t\r\nfatal: no\u{a0}", "\u{3000}x\u{3000}", "   "] {
        assert_eq!(trimmed(&chars(s)), s.trim(), "{:?}", s);
    }
}

#[test]
fn search_finds_what_is_there() {
    let v = chars("error: branch 'x' not found.");
    assert!(contains(&v, &chars("not found")));
    assert!(contains(&v, &chars("")));
    assert!(contains(&v, &chars("error")));
    assert!(contains(&v, &chars("found.")));
    assert!(!contains(&v, &chars("not  found")));
    assert!(!contains(&v, &chars("found.!")));
    assert!(!contains(&chars(""), &chars("x")));
    assert!(contains(&chars(""), &chars("")));
    assert!(matches_at(&v, 7, &chars("branch")));
    assert!(!matches_at(&v, 8, &chars("branch")));
    assert!(!matches_at(&v, 25, &chars("nd.x")));
    assert!(!matches_at(&v, 100, &chars("")));
    assert!(starts_with(&v, &chars("error:")));
    assert!(starts_with(&v, &chars("")));
    assert!(!starts_with(&v, &chars("rror")));
    assert!(!starts_with(&chars("%en"), &chars("%end")));
}

#[test]
fn parse_decimal_is_parse_u64() {
    for s in ["0", "7", "+7", "-7", "", "+", "007", "1 ", " 1", "1_000", "18446744073709551615",
        "18446744073709551616", "184467440737095516150", "+18446744073709551615", "9x", "x9",
        "\u{662}"]
    {
        assert_eq!(parse_decimal(&chars(s)), s.parse::<u64>().ok(), "{:?}", s);
    }
    assert_eq!(parse_decimal(&chars("12345")), Some(12345));
    assert_eq!(parse_decimal(&chars("18446744073709551616")), None);
}
