use nanobot::number::{i64_text, parse_i64, parse_u64, u64_text};
use nanobot::text::{contains_seq, find, first_word, from_chars, join_with, lines};
use nanobot::text::{pad_right, starts_with, str_eq, string_of, to_chars, trim_end_char, trim_range};

fn chars(s: &str) -> Vec<char> {
    s.chars().collect()
}

#[test]
fn numbers_are_written_and_read_in_decimal() {
    for n in [0u64, 7, 10, 99, 100, 1234567890, u64::MAX] {
        assert_eq!(u64_text(n), n.to_string());
        assert_eq!(parse_u64(&n.to_string()), Some(n));
    }
    for n in [0i64, -1, 1, -10, i64::MAX, i64::MIN, -9_007_199_254_740_993] {
        assert_eq!(i64_text(n), n.to_string());
        assert_eq!(parse_i64(&n.to_string()), Some(n));
    }
    assert_eq!(parse_u64("+42"), Some(42));
    assert_eq!(parse_u64("007"), Some(7));
    assert_eq!(parse_u64("18446744073709551615"), Some(u64::MAX));
    for bad in ["", "+", "-1", "18446744073709551616", "99999999999999999999999", "1 ", " 1", "1e3", "١"] {
        assert_eq!(parse_u64(bad), None, "{:?}", bad);
        assert_eq!(parse_u64(bad), bad.parse::<u64>().ok(), "{:?}", bad);
    }
    assert_eq!(parse_i64("-0"), Some(0));
    assert_eq!(parse_i64("+9223372036854775807"), Some(i64::MAX));
    for bad in ["", "-", "+-1", "--1", "9223372036854775808", "-9223372036854775809", "1-"] {
        assert_eq!(parse_i64(bad), None, "{:?}", bad);
        assert_eq!(parse_i64(bad), bad.parse::<i64>().ok(), "{:?}", bad);
    }
}

#[test]
fn lines_are_cut_as_std_cuts_them() {
    for text in [
        "",
        "\n",
        "a",
        "a\n",
        "a\nb",
        "a\r\nb\r\n",
        "a\rb\n\r\n\n",
        "\r",
        "a\r",
        "\r\r\n",
        "one\n\ntwo\n",
        "ä\nö",
    ] {
        let expected: Vec<Vec<char>> = text.lines().map(|l| l.chars().collect()).collect();
        assert_eq!(lines(&chars(text)), expected, "{:?}", text);
    }
}

#[test]
fn searching_and_cutting_texts() {
    let hay = chars("abcabc");
    assert_eq!(find(&hay, 0, &chars("bc")), Some(1));
    assert_eq!(find(&hay, 2, &chars("bc")), Some(4));
    assert_eq!(find(&hay, 5, &chars("bc")), None);
    assert_eq!(find(&hay, 0, &chars("")), Some(0));
    assert_eq!(find(&hay, 6, &chars("")), Some(6));
    assert_eq!(find(&hay, 7, &chars("")), None);
    assert_eq!(find(&hay, 0, &chars("abcabcd")), None);
    assert!(starts_with(&hay, 3, &chars("abc")));
    assert!(!starts_with(&hay, 4, &chars("abc")));
    assert!(!starts_with(&hay, 9, &chars("")));
    assert!(contains_seq(&hay, &chars("ca")));
    assert!(!contains_seq(&hay, &chars("cb")));
    assert_eq!(from_chars(&hay, 1, 4), "bca");
    assert_eq!(string_of(&hay), "abcabc");
    assert_eq!(to_chars("äb"), vec!['ä', 'b']);
    assert!(str_eq("x", "x") && !str_eq("x", "y"));
    assert_eq!(trim_end_char("a//", '/'), "a");
    assert_eq!(trim_end_char("///", '/'), "");
    assert_eq!(trim_end_char("a/b", '/'), "a/b");
    let spaced = chars(" \t x y\u{3000}\n");
    assert_eq!(trim_range(&spaced, 0, spaced.len()), "x y");
    assert_eq!(trim_range(&spaced, 0, 3), "");
    assert_eq!(trim_range(&spaced, 3, 6), "x y");
    assert_eq!(first_word("  ls -l").as_deref(), Some("ls"));
    assert_eq!(first_word("ls").as_deref(), Some("ls"));
    assert_eq!(first_word(" \u{a0}\t"), None);
    assert_eq!(pad_right("ab", 4), "ab  ");
    assert_eq!(pad_right("abcd", 2), "abcd");
    assert_eq!(join_with(&vec!["a".to_string(), "b".to_string(), "c".to_string()], ", "), "a, b, c");
    assert_eq!(join_with(&vec!["a".to_string()], ", "), "a");
    assert_eq!(join_with(&Vec::new(), ", "), "");
}
