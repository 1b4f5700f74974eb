use recent_enabler::domain::common::Timestamp;
use recent_enabler::text::{
    char_is_whitespace, chars_of, decimal_string, ends_with_char, first_essential_line,
    name_has_extension, to_ascii_lower, trim_end_matches,
};
use recent_enabler::utils::time_ago;

fn ago(secs: u64) -> String {
    time_ago(Timestamp { secs: 1_000_000 + secs, nanos: 0 }, Timestamp { secs: 1_000_000, nanos: 0 })
}

#[test]
fn decimal_numerals() {
    assert_eq!(decimal_string(0), "0");
    assert_eq!(decimal_string(7), "7");
    assert_eq!(decimal_string(9), "9");
    assert_eq!(decimal_string(10), "10");
    assert_eq!(decimal_string(1056), "1056");
    assert_eq!(decimal_string(1234567890), "1234567890");
    assert_eq!(decimal_string(u64::MAX), "18446744073709551615");
}

#[test]
fn characters_of_a_text() {
    assert_eq!(chars_of(""), Vec::<char>::new());
    assert_eq!(chars_of("aб€😀"), vec!['a', 'б', '€', '😀']);
}

#[test]
fn trimming_at_the_end() {
    assert_eq!(trim_end_matches("C:\\", '\\'), "C:");
    assert_eq!(trim_end_matches("C:\\\\\\", '\\'), "C:");
    assert_eq!(trim_end_matches("C:", '\\'), "C:");
    assert_eq!(trim_end_matches("\\C\\", '\\'), "\\C");
    assert_eq!(trim_end_matches("\\\\", '\\'), "");
    assert_eq!(trim_end_matches("", '\\'), "");
    assert_eq!(trim_end_matches("дд", 'д'), "");
    assert_eq!(trim_end_matches("axxbx", 'x'), "axxb");
    assert_eq!(trim_end_matches("axx", 'x'), "a");
    assert!(ends_with_char("abc", 'c'));
    assert!(!ends_with_char("abc", 'b'));
    assert!(!ends_with_char("", 'c'));
    assert!(ends_with_char("путь\\", '\\'));
}

#[test]
fn ascii_case_and_white_space() {
    assert_eq!(to_ascii_lower('A'), 'a');
    assert_eq!(to_ascii_lower('Z'), 'z');
    assert_eq!(to_ascii_lower('a'), 'a');
    assert_eq!(to_ascii_lower('@'), '@');
    assert_eq!(to_ascii_lower('['), '[');
    assert_eq!(to_ascii_lower('Д'), 'Д');
    for code in 0u32..0x3100 {
        if let Some(c) = char::from_u32(code) {
            assert_eq!(char_is_whitespace(c), c.is_whitespace(), "U+{:04X}", code);
            assert_eq!(to_ascii_lower(c), c.to_ascii_lowercase(), "U+{:04X}", code);
        }
    }
}

#[test]
fn extensions_of_file_names() {
    let has = |name: &str, ext: &str| name_has_extension(&chars_of(name), &chars_of(ext));
    assert!(has("a.pf", "pf"));
    assert!(has("a.PF", "pf"));
    assert!(has("a.pf", "PF"));
    assert!(has("a.b.pf", "pf"));
    assert!(!has("a.pf", "p"));
    assert!(!has("a.pf", "pff"));
    assert!(!has(".pf", "pf"));
    assert!(!has("pf", "pf"));
    assert!(!has("..", ""));
    assert!(has("a.", ""));
    assert!(has("..pf", "pf"));
    assert!(!has("", ""));
    assert!(!has("", "pf"));
    for name in ["a.pf", ".pf", "..", "a.", "..pf", "x.tar.gz", "noext", "UP.PF", "a.b."] {
        let expected = std::path::Path::new(name)
            .extension()
            .map(|e| e.eq_ignore_ascii_case("pf"))
            .unwrap_or(false);
        assert_eq!(has(name, "pf"), expected, "{}", name);
    }
}

#[test]
fn first_line_that_says_something() {
    assert_eq!(first_essential_line("a\nb", "x"), Some("a".to_string()));
    assert_eq!(first_essential_line("\n\nb\n", "x"), Some("b".to_string()));
    assert_eq!(first_essential_line("ax\nb\r\nc", "x"), Some("b".to_string()));
    assert_eq!(first_essential_line("ax\nbx", "x"), None);
    assert_eq!(first_essential_line("", "x"), None);
    assert_eq!(first_essential_line(" \t ", "x"), None);
    assert_eq!(first_essential_line("abc", ""), None);
    assert_eq!(first_essential_line("abc", "abcd"), Some("abc".to_string()));
    assert_eq!(first_essential_line("abc", "bc"), None);
    assert_eq!(first_essential_line("\r\nq", "x"), Some("q".to_string()));
    for text in ["one\ntwo", "\n\r\n three \r\nfour", "a\rb\nc", "tail\r", "\r", "x\n\n", "  \n \n"] {
        let expected = text.lines().find(|l| !l.trim().is_empty() && !l.contains("zz")).map(|l| l.to_string());
        assert_eq!(first_essential_line(text, "zz"), expected, "{:?}", text);
    }
}

#[test]
fn time_ago_in_words() {
    assert_eq!(ago(0), "только что");
    assert_eq!(ago(59), "только что");
    assert_eq!(ago(60), "1 мин. назад");
    assert_eq!(ago(119), "1 мин. назад");
    assert_eq!(ago(3599), "59 мин. назад");
    assert_eq!(ago(3600), "1 ч. назад");
    assert_eq!(ago(86399), "23 ч. назад");
    assert_eq!(ago(86400), "1 день назад");
    assert_eq!(ago(172799), "1 день назад");
    assert_eq!(ago(172800), "2 дн. назад");
    assert_eq!(ago(86400 * 365), "365 дн. назад");
}

#[test]
fn time_ago_looks_at_nanoseconds() {
    let now = Timestamp { secs: 100, nanos: 5 };
    assert_eq!(time_ago(now, Timestamp { secs: 101, nanos: 0 }), "в будущем");
    assert_eq!(time_ago(now, Timestamp { secs: 100, nanos: 6 }), "в будущем");
    assert_eq!(time_ago(now, Timestamp { secs: 100, nanos: 5 }), "только что");
    assert_eq!(time_ago(Timestamp { secs: 160, nanos: 4 }, Timestamp { secs: 100, nanos: 5 }), "только что");
    assert_eq!(time_ago(Timestamp { secs: 160, nanos: 5 }, Timestamp { secs: 100, nanos: 5 }), "1 мин. назад");
    assert_eq!(
        time_ago(Timestamp { secs: u64::MAX, nanos: 0 }, Timestamp { secs: 0, nanos: 0 }),
        "213503982334601 дн. назад"
    );
}
