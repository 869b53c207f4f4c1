use mimic_shrimp::number::{decimal_text, parse_i32, parse_unsigned, signed_decimal_text, NumeralError};
use mimic_shrimp::text::{
    replace, split_on, split_words, string_of, take_chars, to_ascii_lowercase, trim,
    trim_end_matches, chars_of,
};

#[test]
fn trimming_agrees_with_std() {
    for s in ["", "  ", " a b ", "\u{3000}晴\u{00a0}\n", "x", "\t\r\n\u{2028}y\u{85}"] {
        assert_eq!(trim(s), s.trim());
        assert_eq!(trim(trim(s)), trim(s));
    }
}

#[test]
fn words_agree_with_std() {
    for s in ["", " a  b\tc\n", "\u{2003}x\u{205f}y", "one"] {
        let words: Vec<String> = split_words(&chars_of(s)).iter().map(string_of).collect();
        assert_eq!(words, s.split_whitespace().collect::<Vec<&str>>());
        let pieces: Vec<String> = split_on(&chars_of(s), 'x').iter().map(string_of).collect();
        assert_eq!(pieces, s.split('x').collect::<Vec<&str>>());
    }
}

#[test]
fn replacing_agrees_with_std() {
    for (s, from, to) in [("a**b***c", "**", ""), ("aaaa", "aa", "b"), ("x", "y", "z"), ("\n\n", "\n", "\\n")] {
        assert_eq!(replace(s, from, to), s.replace(from, to));
    }
    assert_eq!(trim_end_matches("a///", '/'), "a");
    assert_eq!(to_ascii_lowercase("AbÄ晴"), "abÄ晴");
    assert_eq!(take_chars("晴天", 1), "晴");
    assert_eq!(take_chars("晴天", 5), "晴天");
}

#[test]
fn numerals_agree_with_std() {
    for n in [0u64, 7, 10, 99, 1_000, u64::MAX] {
        assert_eq!(decimal_text(n), n.to_string());
        assert_eq!(parse_unsigned(&decimal_text(n), u64::MAX), Ok(n));
    }
    for n in [0i64, -1, 42, i64::MIN, i64::MAX] {
        assert_eq!(signed_decimal_text(n), n.to_string());
    }
    for s in ["", "+", "-", "+5", "-5", "1x", "2147483648", "-2147483649", "-2147483648", "007"] {
        let expected = s.parse::<i32>();
        let got = parse_i32(s);
        match (expected, got) {
            (Ok(a), Ok(b)) => assert_eq!(a, b),
            (Err(e), Err(n)) => assert_eq!(e.to_string(), n.message()),
            (a, b) => panic!("{s}: {a:?} {b:?}"),
        }
        let expected = s.parse::<u32>();
        let got = parse_unsigned(s, u64::from(u32::MAX));
        match (expected, got) {
            (Ok(a), Ok(b)) => assert_eq!(u64::from(a), b),
            (Err(e), Err(n)) => assert_eq!(e.to_string(), n.message()),
            (a, b) => panic!("{s}: {a:?} {b:?}"),
        }
    }
    assert_eq!(parse_unsigned("256", 255), Err(NumeralError::TooLarge));
}
