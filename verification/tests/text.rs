use virtual_rack::text::{chars_of, contains_str, parse_u32, str_equals};

#[test]
fn parse_u32_reads_decimal_numbers() {
    assert_eq!(parse_u32("0"), Some(0));
    assert_eq!(parse_u32("42"), Some(42));
    assert_eq!(parse_u32("007"), Some(7));
    assert_eq!(parse_u32("+7"), Some(7));
    assert_eq!(parse_u32("4294967295"), Some(u32::MAX));
    assert_eq!(parse_u32("00004294967295"), Some(u32::MAX));
}

#[test]
fn parse_u32_refuses_what_str_parse_refuses() {
    for text in ["", "+", "-", "-1", "-0", "4294967296", "99999999999", "12a", " 1", "1 ", "++1", "١"] {
        assert_eq!(parse_u32(text), None, "{text:?}");
        assert_eq!(text.parse::<u32>().ok(), None, "{text:?}");
    }
    for text in ["0", "+0", "123", "4294967295", "+4294967295"] {
        assert_eq!(parse_u32(text), text.parse::<u32>().ok(), "{text:?}");
    }
}

#[test]
fn contains_str_finds_infixes() {
    assert!(contains_str("Audio/Sink", "Sink"));
    assert!(contains_str("Audio/Sink", "Audio"));
    assert!(contains_str("Audio/Sink", ""));
    assert!(contains_str("", ""));
    assert!(!contains_str("Audio/Sink", "sink"));
    assert!(!contains_str("Au", "Audio"));
    assert!(contains_str("aaab", "aab"));
    assert!(contains_str("héllo wörld", "ö"));
}

#[test]
fn str_equals_compares_characters() {
    assert!(str_equals("8 bit raw midi", "8 bit raw midi"));
    assert!(!str_equals("8 bit raw midi", "8 bit raw midi "));
    assert!(str_equals("", ""));
    assert!(!str_equals("a", "b"));
}

#[test]
fn chars_of_lists_characters() {
    assert_eq!(chars_of("añb"), vec!['a', 'ñ', 'b']);
    assert!(chars_of("").is_empty());
}
