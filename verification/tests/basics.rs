use signet_client::duration::Duration;
use signet_client::text::{
    chars_of, eq_ignore_ascii_case, is_text_or_uppered, push_decimal, push_padded, replace_first, strip, trim,
    Strippable,
};

#[test]
fn durations_count_nanoseconds() {
    let span = Duration::from_millis(4999);
    assert_eq!(span.as_secs(), 4);
    assert_eq!(span.subsec_nanos(), 999_000_000);
    assert_eq!(Duration::new(4, 999_000_000), span);
    assert!(Duration::zero().is_zero());
    assert!(!Duration::new(0, 1).is_zero());
    assert!(Duration::from_secs(2).exceeds(&Duration::from_millis(1999)));
    assert!(!Duration::from_secs(2).exceeds(&Duration::from_secs(2)));
}

#[test]
fn durations_multiply_like_the_standard_ones() {
    for (secs, nanos) in [(0, 0), (0, 999_999_999), (30, 1), (u64::MAX / 2, 600_000_000), (u64::MAX, 0)]
    {
        for factor in [0u32, 1, 2, 3, u32::MAX] {
            let ours = Duration::new(secs, nanos).saturating_mul(factor);
            let std = std::time::Duration::new(secs, nanos).saturating_mul(factor);
            assert_eq!((ours.as_secs(), ours.subsec_nanos()), (std.as_secs(), std.subsec_nanos()));
        }
    }
}

#[test]
fn durations_divide_like_the_standard_ones() {
    for (secs, nanos) in [(0, 0), (0, 3), (1, 0), (7, 999_999_999), (u64::MAX, 999_999_999)] {
        for parts in [1u32, 2, 4, 7, u32::MAX] {
            let ours = Duration::new(secs, nanos).divided_by(parts);
            let std = std::time::Duration::new(secs, nanos) / parts;
            assert_eq!((ours.as_secs(), ours.subsec_nanos()), (std.as_secs(), std.subsec_nanos()));
        }
    }
}

#[test]
fn durations_debug_like_the_standard_ones() {
    assert_eq!(Duration::zero().to_debug_string(), "0ns");
    assert_eq!(Duration::from_millis(1500).to_debug_string(), "1.5s");
}

#[test]
fn white_space_is_that_of_unicode() {
    for c in '\0'..=char::MAX {
        assert_eq!(Strippable::WhiteSpace.matches(c), c.is_whitespace(), "{:?}", c);
    }
}

#[test]
fn trim_agrees_with_the_standard_one() {
    for text in ["", " ", "\t\n", "a", " a", "a ", " a b\u{3000}", "\u{200b}a\u{200b}", "\u{feff}"] {
        assert_eq!(trim(text), text.trim(), "{text:?}");
    }
    assert_eq!(strip("[[a]b]]", Strippable::Just('['), Strippable::Just(']')), "a]b");
    assert_eq!(strip("[[", Strippable::Just('['), Strippable::Just(']')), "");
}

#[test]
fn replace_first_agrees_with_the_standard_one() {
    for (text, pattern, replacement) in [
        ("", "a", "b"),
        ("aaa", "a", "bb"),
        ("abab", "bab", ""),
        ("abc", "abcd", "x"),
        ("\u{e9}a\u{e9}", "\u{e9}", "e"),
        ("aab", "ab", "aab"),
    ] {
        assert_eq!(replace_first(text, pattern, replacement), text.replacen(pattern, replacement, 1));
    }
}

#[test]
fn ascii_case_is_ignored_only_for_ascii() {
    assert!(eq_ignore_ascii_case("LocalHost", "localhost"));
    assert!(!eq_ignore_ascii_case("localhos", "localhost"));
    assert!(!eq_ignore_ascii_case("\u{212a}", "k"));
    assert!(!eq_ignore_ascii_case("@", "`"));
    assert!(is_text_or_uppered("age1x", "age1x"));
    assert!(is_text_or_uppered("AGE1X", "age1x"));
    assert!(!is_text_or_uppered("Age1x", "age1x"));
    assert!(!is_text_or_uppered("age1", "age1x"));
    assert!(is_text_or_uppered("", ""));
}

#[test]
fn decimals_are_padded() {
    let mut text = String::new();
    push_padded(&mut text, 7, 2);
    push_padded(&mut text, 12_345, 4);
    push_decimal(&mut text, 0);
    push_decimal(&mut text, u64::MAX);
    assert_eq!(text, "0712345018446744073709551615");
    assert_eq!(chars_of("h\u{e9}"), vec!['h', '\u{e9}']);
}
