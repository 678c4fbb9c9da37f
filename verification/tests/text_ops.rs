use video_transcriber_mcp::text::{
    chars_of, contains, decimal, ends_with, join, matches_at, replace_all, same_text, space,
    starts_with, string_of, string_of_range, take_chars, text_after_last, text_before_first, trim,
    word_count,
};

fn chars(s: &str) -> Vec<char> {
    s.chars().collect()
}

#[test]
fn chars_and_back() {
    let s = "héllo wörld ✅";
    assert_eq!(chars_of(s), chars(s));
    assert_eq!(string_of(&chars(s)), s);
    assert_eq!(string_of_range(&chars(s), 1, 5), "éllo");
    assert_eq!(string_of_range(&chars(s), 3, 3), "");
}

#[test]
fn prefix_and_suffix() {
    assert!(starts_with("https://x", "https://"));
    assert!(!starts_with("http", "http://"));
    assert!(starts_with("abc", ""));
    assert!(!starts_with("HTTP://x", "http://"));
    assert!(ends_with("a.txt", ".txt"));
    assert!(!ends_with("a.txt.bak", ".txt"));
    assert!(!ends_with("txt", ".txt"));
    assert!(ends_with("abc", ""));
}

#[test]
fn search_finds_what_is_there() {
    assert!(contains(&chars("www.youtube.com/watch"), &chars("youtube.com")));
    assert!(!contains(&chars("www.youtube.co"), &chars("youtube.com")));
    assert!(contains(&chars("abc"), &chars("")));
    assert!(contains(&chars("aab"), &chars("ab")));
    assert!(matches_at(&chars("aab"), &chars("ab"), 1));
    assert!(!matches_at(&chars("aab"), &chars("ab"), 0));
    assert!(!matches_at(&chars("aab"), &chars("ab"), 2));
    assert!(!matches_at(&chars("aab"), &chars("ab"), 7));
}

#[test]
fn same_text_compares_characters() {
    assert!(same_text("auto", "auto"));
    assert!(!same_text("auto", "Auto"));
    assert!(!same_text("auto", "autos"));
    assert!(same_text("", ""));
}

#[test]
fn trim_agrees_with_the_standard_library() {
    for s in [
        "",
        " ",
        "  a b  ",
        "\t\n x \r\n",
        "\u{3000}wide\u{2003}",
        "\u{0085}next\u{00A0}",
        "no-space",
        " \u{200B} ",
        "\u{1680}\u{2028}\u{2029}\u{202F}\u{205F}z",
    ] {
        assert_eq!(trim(s), s.trim());
    }
}

#[test]
fn white_space_is_the_unicode_property() {
    for code in 0u32..0x3100 {
        if let Some(c) = char::from_u32(code) {
            assert_eq!(space(c), c.is_whitespace());
        }
    }
}

#[test]
fn word_count_agrees_with_the_standard_library() {
    for s in ["", "   ", "one", " one  two\tthree\n", "a\u{3000}b", "x y z w", "tail "] {
        assert_eq!(word_count(s), s.split_whitespace().count());
    }
    assert_eq!(word_count("the quick  brown fox"), 4);
}

#[test]
fn replace_agrees_with_the_standard_library() {
    let cases = [
        ("aaa", "aa", "b"),
        ("abc-def-ghi", "-", " "),
        ("id-title.txt", "id-", ""),
        ("x.txt.txt", ".txt", ""),
        ("abc", "", "z"),
        ("abab", "ab", "abab"),
        ("", "a", "b"),
        ("héé", "é", "e"),
    ];
    for (s, pat, with) in cases {
        if !pat.is_empty() {
            assert_eq!(replace_all(s, pat, with), s.replace(pat, with));
        }
    }
    assert_eq!(replace_all("aaa", "aa", "b"), "ba");
    assert_eq!(replace_all("abc", "", "z"), "abc");
}

#[test]
fn split_at_first_and_last() {
    assert_eq!(text_before_first("abc-def-ghi", '-'), "abc");
    assert_eq!(text_before_first("abc", '-'), "abc");
    assert_eq!(text_before_first("-abc", '-'), "");
    assert_eq!(text_after_last("a.b.txt", '.'), "txt");
    assert_eq!(text_after_last("noext", '.'), "noext");
    assert_eq!(text_after_last("end.", '.'), "");
}

#[test]
fn join_puts_the_separator_between() {
    let items = vec!["a".to_string(), "b".to_string(), "c".to_string()];
    assert_eq!(join(&items, ", "), "a, b, c");
    assert_eq!(join(&vec!["one".to_string()], ", "), "one");
    assert_eq!(join(&Vec::new(), ", "), "");
    assert_eq!(join(&vec!["".to_string(), "".to_string()], "-"), "-");
}

#[test]
fn take_chars_counts_characters() {
    assert_eq!(take_chars("héllo", 2), "hé");
    assert_eq!(take_chars("héllo", 5), "héllo");
    assert_eq!(take_chars("héllo", 9), "héllo");
    assert_eq!(take_chars("héllo", 0), "");
}

#[test]
fn decimal_writes_numbers() {
    assert_eq!(decimal(0), "0");
    assert_eq!(decimal(7), "7");
    assert_eq!(decimal(10), "10");
    assert_eq!(decimal(1234567890), "1234567890");
    assert_eq!(decimal(u64::MAX), "18446744073709551615");
}
