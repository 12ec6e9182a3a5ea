use runaway_daemon::text::{
    chars_of, contains, contains_chars, decimal_text, is_whitespace, parse_u32, parse_u64,
    same_text, signed_decimal_text, split_words, strip_range, text_of, Strip,
};

fn words_of(text: &str) -> Vec<String> {
    let chars = chars_of(text);
    split_words(&chars).iter().map(|&(from, to)| text_of(&chars, from, to)).collect()
}

fn stripped(text: &str, what: Strip) -> String {
    let chars = chars_of(text);
    let (from, to) = strip_range(&chars, 0, chars.len(), what);
    text_of(&chars, from, to)
}

fn parsed(text: &str) -> Option<u64> {
    let chars = chars_of(text);
    parse_u64(&chars, 0, chars.len())
}

#[test]
fn chars_and_text_round_trip() {
    let text = "héllo, wörld ✓";
    let chars = chars_of(text);
    assert_eq!(chars.len(), 14);
    assert_eq!(text_of(&chars, 0, chars.len()), text);
    assert_eq!(text_of(&chars, 7, 12), "wörld");
    assert_eq!(text_of(&chars, 3, 3), "");
}

#[test]
fn whitespace_is_the_unicode_property() {
    for code in 0..=0x10FFFFu32 {
        if let Some(c) = char::from_u32(code) {
            assert_eq!(is_whitespace(c), c.is_whitespace(), "U+{:04X}", code);
        }
    }
}

#[test]
fn substring_search_agrees_with_the_standard_library() {
    let hays = ["", "a", "ab", "abcabd", "aaa", "firefox-esr", "ßüß", "xx\0yy"];
    let needles = ["", "a", "b", "ab", "abd", "aaaa", "fox", "-esr", "ß", "üß", "\0", "abcabdx"];
    for hay in hays {
        for needle in needles {
            assert_eq!(contains(hay, needle), hay.contains(needle), "{:?} in {:?}", needle, hay);
            assert_eq!(
                contains_chars(&chars_of(hay), &chars_of(needle)),
                hay.contains(needle)
            );
        }
    }
}

#[test]
fn same_text_compares_characters() {
    assert!(same_text("", ""));
    assert!(same_text("TERM", "TERM"));
    assert!(!same_text("TERM", "TERm"));
    assert!(!same_text("TERM", "TERMS"));
    assert!(!same_text("", " "));
}

#[test]
fn words_agree_with_split_whitespace() {
    let texts = [
        "",
        " ",
        "a",
        " a",
        "a ",
        "  one two\tthree\n",
        "1 (init) S 0",
        "\u{a0}x\u{2003}y\u{3000}",
        "a\r\nb",
        "tab\tseparated\u{b}values",
    ];
    for text in texts {
        let expected: Vec<String> = text.split_whitespace().map(|w| w.to_string()).collect();
        assert_eq!(words_of(text), expected, "{:?}", text);
    }
}

#[test]
fn stripping_agrees_with_trim() {
    let texts = ["", " ", "  a b  ", "\t\nx\r\n", "x", " \u{a0}y\u{2028} ", "  "];
    for text in texts {
        assert_eq!(stripped(text, Strip::Whitespace), text.trim(), "{:?}", text);
    }
    let texts = ["", "(", "()", "(a)", "((a)(b))", "a(b)c", ")(x)(", " (x) "];
    for text in texts {
        let expected = text.trim_matches(|c| c == '(' || c == ')');
        assert_eq!(stripped(text, Strip::Parentheses), expected, "{:?}", text);
    }
}

#[test]
fn decimal_parsing_agrees_with_the_standard_library() {
    let texts = [
        "",
        "0",
        "7",
        "+7",
        "-7",
        "++7",
        "+",
        "-",
        "007",
        "12a",
        "a12",
        " 12",
        "12 ",
        "1_000",
        "18446744073709551615",
        "18446744073709551616",
        "99999999999999999999",
        "184467440737095516150",
        "+18446744073709551615",
        "4294967295",
        "4294967296",
        "١٢٣",
        "１２",
        "0x10",
    ];
    for text in texts {
        assert_eq!(parsed(text), text.parse::<u64>().ok(), "{:?}", text);
        let chars = chars_of(text);
        assert_eq!(parse_u32(&chars, 0, chars.len()), text.parse::<u32>().ok(), "{:?}", text);
    }
}

#[test]
fn decimal_parsing_reads_a_range() {
    let chars = chars_of("ab123cd");
    assert_eq!(parse_u64(&chars, 2, 5), Some(123));
    assert_eq!(parse_u64(&chars, 2, 6), None);
    assert_eq!(parse_u64(&chars, 3, 3), None);
}

#[test]
fn decimal_text_writes_digits() {
    assert_eq!(decimal_text(0), "0");
    assert_eq!(decimal_text(9), "9");
    assert_eq!(decimal_text(10), "10");
    assert_eq!(decimal_text(1234567890), "1234567890");
    assert_eq!(decimal_text(u64::MAX), "18446744073709551615");
    for n in [0u64, 1, 99, 100, 101, 65535, 4294967295, 1 << 40] {
        assert_eq!(decimal_text(n), n.to_string());
        assert_eq!(parsed(&decimal_text(n)), Some(n));
    }
}

#[test]
fn signed_decimal_text_writes_the_sign() {
    assert_eq!(signed_decimal_text(0), "0");
    assert_eq!(signed_decimal_text(19), "19");
    assert_eq!(signed_decimal_text(-20), "-20");
    assert_eq!(signed_decimal_text(i32::MAX), "2147483647");
    assert_eq!(signed_decimal_text(i32::MIN), "-2147483648");
}
