use webrtc_datachannels::text::{
    decimal_text, parse_number, split_first, split_lines, split_words, starts_with, strip_prefix,
    text_after_last, text_before, text_last_line, trim, trim_end_matches, trim_start, NumberError,
};

#[test]
fn numbers_read_back() {
    for n in [0u64, 7, 10, 99, 100, 4096, u64::MAX] {
        assert!(matches!(
            parse_number(decimal_text(n as u128).as_str(), u64::MAX),
            Ok(m) if m == n
        ));
    }
    assert_eq!(decimal_text(u128::MAX), "340282366920938463463374607431768211455");
}

#[test]
fn numbers_as_the_standard_library_reads_them() {
    for s in ["", "+", "-", "+0", "0010", "12a", "a12", "4294967295", "4294967296", "-1", " 1"] {
        let ours = parse_number(s, u32::MAX as u64);
        match s.parse::<u32>() {
            Ok(n) => assert!(matches!(ours, Ok(m) if m == n as u64), "{s}"),
            Err(_) => assert!(ours.is_err(), "{s}"),
        }
    }
    assert!(matches!(parse_number("", 9), Err(NumberError::Empty)));
    assert!(matches!(parse_number("+", 9), Err(NumberError::InvalidDigit)));
    assert!(matches!(parse_number("10", 9), Err(NumberError::TooLarge)));
    assert!(matches!(parse_number("99x", 9), Err(NumberError::TooLarge)));
}

#[test]
fn texts_are_taken_apart() {
    assert_eq!(split_first("a,b,c", ','), ("a".to_string(), "b,c".to_string()));
    assert_eq!(split_first("abc", ','), ("abc".to_string(), String::new()));
    assert_eq!(text_after_last("x/y/z", '/'), "z");
    assert_eq!(text_after_last("xyz", '/'), "xyz");
    assert_eq!(trim_end_matches("http://h//", '/'), "http://h");
    assert!(starts_with("solo/a", "solo/"));
    assert!(!starts_with("so", "solo/"));
}

#[test]
fn last_lines_as_the_standard_library_finds_them() {
    for s in ["", "a", "a\n", "a\nb", "a\r\nb\r\n", "a\n\n", "\n", "a\nb\r", "a\r"] {
        assert_eq!(text_last_line(s), s.lines().last().unwrap_or(""), "{s:?}");
    }
}

#[test]
fn texts_are_ordered_as_the_standard_library_orders_them() {
    let texts = ["", "a", "aa", "ab", "b", "Z", "é", "z", "\u{10000}", "\u{ffff}"];
    for a in texts {
        for b in texts {
            assert_eq!(text_before(a, b), a < b, "{a:?} {b:?}");
        }
    }
}

#[test]
fn words_as_the_standard_library_splits_them() {
    for s in ["", " ", "a", " a", "a ", "a b", "\t a\r\nb\u{a0}c  d\u{3000}", "é ü"] {
        let words: Vec<String> = s.split_whitespace().map(|w| w.to_string()).collect();
        assert_eq!(split_words(s), words);
        assert_eq!(trim_start(s), s.trim_start());
        assert_eq!(trim(s), s.trim());
    }
    for c in '\u{0}'..='\u{ffff}' {
        let mut s = String::new();
        s.push(c);
        assert_eq!(split_words(&s).is_empty(), c.is_whitespace());
    }
}

#[test]
fn prefixes_are_stripped() {
    assert_eq!(strip_prefix("candidate:1", "candidate:"), Some("1".to_string()));
    assert_eq!(strip_prefix("a", "a"), Some(String::new()));
    assert_eq!(strip_prefix("a", ""), Some("a".to_string()));
    assert_eq!(strip_prefix("cand", "candidate:"), None);
}

#[test]
fn lines_end_at_newlines() {
    assert!(split_lines("").is_empty());
    assert_eq!(split_lines("a\r\nb"), vec!["a\r".to_string(), "b".to_string()]);
    assert_eq!(split_lines("\na\n"), vec![String::new(), "a".to_string()]);
}
