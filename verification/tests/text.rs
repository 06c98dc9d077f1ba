use chat_memory::text::{
    chars_of, decimal_text, replace, same_text, signed_decimal_text, text_of_chars, trim_end,
};

#[test]
fn replace_agrees_with_the_standard_library() {
    let cases = [
        ("this is old", "old", "new"),
        ("this is old", "is", "an"),
        ("aaaa", "aa", "b"),
        ("aaa", "aa", "b"),
        ("abc", "", "-"),
        ("", "", "-"),
        ("", "x", "y"),
        ("abc", "abcd", "y"),
        ("{user} and {user}", "{user}", "Ann"),
        ("xx{time}xx", "{time_since}", "never"),
        ("h\u{e9}llo w\u{f6}rld", "\u{f6}", "o"),
        ("abab", "ab", "abab"),
    ];
    for (text, from, to) in cases {
        assert_eq!(replace(text, from, to), text.replace(from, to), "{text:?} {from:?} {to:?}");
    }
}

#[test]
fn replace_exact_values() {
    assert_eq!(replace("this is old", "is", "an"), "than an old");
    assert_eq!(replace("aaa", "aa", "b"), "ba");
    assert_eq!(replace("abc", "", "-"), "-a-b-c-");
    assert_eq!(replace("", "", "-"), "-");
}

#[test]
fn decimal_numerals() {
    assert_eq!(decimal_text(0), "0");
    assert_eq!(decimal_text(7), "7");
    assert_eq!(decimal_text(10), "10");
    assert_eq!(decimal_text(1234567890), "1234567890");
    assert_eq!(decimal_text(u64::MAX), "18446744073709551615");
    assert_eq!(signed_decimal_text(0), "0");
    assert_eq!(signed_decimal_text(-1), "-1");
    assert_eq!(signed_decimal_text(42), "42");
    assert_eq!(signed_decimal_text(i64::MIN), "-9223372036854775808");
    assert_eq!(signed_decimal_text(i64::MAX), "9223372036854775807");
}

#[test]
fn trim_end_removes_every_repetition() {
    assert_eq!(trim_end("a\n---\n", "\n---\n"), "a");
    assert_eq!(trim_end("a\n---\n\n---\n", "\n---\n"), "a");
    assert_eq!(trim_end("a\n---\nb", "\n---\n"), "a\n---\nb");
    assert_eq!(trim_end("", "\n---\n"), "");
    assert_eq!(trim_end("xyxy", "xy"), "");
    assert_eq!(trim_end("abc", ""), "abc");
    for (text, tail) in [("111211", "1"), ("abcabc", "bc"), ("\u{e9}\u{e9}", "\u{e9}")] {
        assert_eq!(trim_end(text, tail), text.trim_end_matches(tail));
    }
}

#[test]
fn characters_round_trip() {
    let text = "h\u{e9}llo \u{1f600}";
    let chars = chars_of(text);
    assert_eq!(chars.len(), 7);
    assert_eq!(text_of_chars(&chars), text);
    assert!(same_text("abc", "abc"));
    assert!(!same_text("abc", "abd"));
    assert!(!same_text("abc", "ab"));
    assert!(same_text("", ""));
}
