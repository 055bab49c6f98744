use cashwises::text::decimal::{format_u64, parse_i64, parse_u16, parse_unsigned_text, parse_usize};
use cashwises::text::search::{chars_of, contains_str};
use cashwises::text::split::split_commas;
use cashwises::text::words::{first_word_of, is_whitespace};

#[test]
fn format_writes_decimal() {
    assert_eq!(format_u64(0), "0");
    assert_eq!(format_u64(7), "7");
    assert_eq!(format_u64(42), "42");
    assert_eq!(format_u64(1000), "1000");
    assert_eq!(format_u64(u64::MAX), "18446744073709551615");
}

#[test]
fn parse_u16_reads_as_rust_does() {
    assert_eq!(parse_u16("8080"), Some(8080));
    assert_eq!(parse_u16("+25"), Some(25));
    assert_eq!(parse_u16("0"), Some(0));
    assert_eq!(parse_u16("007"), Some(7));
    assert_eq!(parse_u16("65535"), Some(65535));
    assert_eq!(parse_u16("65536"), None);
    assert_eq!(parse_u16(""), None);
    assert_eq!(parse_u16("+"), None);
    assert_eq!(parse_u16("-1"), None);
    assert_eq!(parse_u16("12a"), None);
    assert_eq!(parse_u16(" 1"), None);
    assert_eq!(parse_u16("++1"), None);
}

#[test]
fn parse_u16_agrees_with_std() {
    for text in ["8080", "+25", "65535", "65536", "", "+", "-1", "12a", " 1", "99999999999"] {
        assert_eq!(parse_u16(text), text.parse::<u16>().ok(), "text {:?}", text);
    }
}

#[test]
fn parse_i64_reads_signs() {
    assert_eq!(parse_i64("60"), Some(60));
    assert_eq!(parse_i64("-42"), Some(-42));
    assert_eq!(parse_i64("+42"), Some(42));
    assert_eq!(parse_i64("9223372036854775807"), Some(i64::MAX));
    assert_eq!(parse_i64("-9223372036854775808"), Some(i64::MIN));
    assert_eq!(parse_i64("9223372036854775808"), None);
    assert_eq!(parse_i64("-9223372036854775809"), None);
    assert_eq!(parse_i64("-"), None);
    assert_eq!(parse_i64("+-1"), None);
    assert_eq!(parse_i64("-+1"), None);
    assert_eq!(parse_i64("1_000"), None);
}

#[test]
fn parse_i64_agrees_with_std() {
    for text in ["60", "-42", "+42", "-0", "", "-", "+", "1e3", "-9223372036854775808", "9223372036854775808"] {
        assert_eq!(parse_i64(text), text.parse::<i64>().ok(), "text {:?}", text);
    }
}

#[test]
fn parse_usize_reads_content_length() {
    assert_eq!(parse_usize("5000000"), Some(5_000_000));
    assert_eq!(parse_usize("0"), Some(0));
    assert_eq!(parse_usize("abc"), None);
    assert_eq!(parse_unsigned_text("300", 255), None);
    assert_eq!(parse_unsigned_text("255", 255), Some(255));
}

#[test]
fn parse_reads_back_what_format_writes() {
    for n in [0u64, 1, 9, 10, 99, 1111, 9998, 65535, 123456789, u32::MAX as u64] {
        assert_eq!(parse_usize(&format_u64(n)), Some(n as usize));
    }
    assert_eq!(parse_u16(&format_u64(65535)), Some(65535));
}

#[test]
fn split_commas_keeps_empty_pieces() {
    assert_eq!(split_commas("a,b,c"), vec!["a", "b", "c"]);
    assert_eq!(split_commas(""), vec![""]);
    assert_eq!(split_commas("a,,b,"), vec!["a", "", "b", ""]);
    assert_eq!(split_commas("one"), vec!["one"]);
    assert_eq!(split_commas("ü,é"), vec!["ü", "é"]);
}

#[test]
fn split_then_join_gives_back_the_text() {
    for text in ["a,b,c", "", ",", "a,,b,", "rust,verus", "no separator"] {
        let parts = split_commas(text);
        assert_eq!(parts.join(","), text);
        assert!(parts.iter().all(|p| !p.contains(',')));
        assert_eq!(parts, text.split(',').map(String::from).collect::<Vec<String>>());
    }
}

#[test]
fn contains_finds_the_duplicate_phrase() {
    let phrase = "duplicate key value violates unique constraint";
    assert!(contains_str(
        "error returned from database: duplicate key value violates unique constraint \"categories_title_key\"",
        phrase
    ));
    assert!(!contains_str("error returned from database: relation does not exist", phrase));
    assert!(contains_str("abc", ""));
    assert!(contains_str("", ""));
    assert!(!contains_str("ab", "abc"));
    assert!(contains_str("abc", "abc"));
    assert!(contains_str("aab", "ab"));
}

#[test]
fn chars_of_lists_characters() {
    assert_eq!(chars_of("añb"), vec!['a', 'ñ', 'b']);
    assert!(chars_of("").is_empty());
}

#[test]
fn first_word_is_as_split_whitespace_gives() {
    for text in ["  John Smith", "Ana", "\u{3000}Ana\tB", "   ", "", "x\u{85}y", "\n\nMaria\u{A0}Lopez"] {
        assert_eq!(
            first_word_of(text),
            text.split_whitespace().next().map(String::from),
            "text {:?}",
            text
        );
    }
    assert_eq!(first_word_of("  John Smith"), Some("John".to_string()));
    assert_eq!(first_word_of("   "), None);
}

#[test]
fn whitespace_is_unicode_white_space() {
    for c in [' ', '\t', '\n', '\u{0B}', '\u{0C}', '\r', '\u{85}', '\u{A0}', '\u{1680}', '\u{2000}', '\u{200A}', '\u{2028}', '\u{2029}', '\u{202F}', '\u{205F}', '\u{3000}', 'a', '0', '\u{200B}', '_'] {
        assert_eq!(is_whitespace(c), c.is_whitespace(), "char {:?}", c);
    }
}
