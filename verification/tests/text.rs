use upscaler::text::{
    aligned_number, eq_ignore_ascii_case, pad_left, parse_decimal, parse_u32, parse_u64,
    parse_usize, text_eq, usize_text,
};

#[test]
fn decimal_rendering() {
    assert_eq!(aligned_number(0, 0), "0");
    assert_eq!(aligned_number(1234567, 0), "1234567");
}

#[test]
fn right_alignment_matches_format() {
    assert_eq!(aligned_number(7, 4), format!("{:>4}", 7));
    assert_eq!(aligned_number(123456, 6), format!("{:>6}", 123456));
    assert_eq!(aligned_number(1234567, 6), "1234567");
    assert_eq!(pad_left("ab", 5), "   ab");
    assert_eq!(pad_left("abcdef", 3), "abcdef");
    assert_eq!(pad_left("", 2), "  ");
}

#[test]
fn text_equality() {
    assert!(text_eq("train", "train"));
    assert!(text_eq("", ""));
    assert!(!text_eq("train", "trai"));
    assert!(!text_eq("test", "tesT"));
}

#[test]
fn decimal_text_and_parsing() {
    assert_eq!(usize_text(0), "0");
    assert_eq!(usize_text(9), "9");
    assert_eq!(usize_text(10), "10");
    assert_eq!(usize_text(usize::MAX), usize::MAX.to_string());
    assert_eq!(parse_u32("256"), Some(256));
    assert_eq!(parse_u32("+12"), Some(12));
    assert_eq!(parse_u32("007"), Some(7));
    assert_eq!(parse_u32(""), None);
    assert_eq!(parse_u32("+"), None);
    assert_eq!(parse_u32(" 1"), None);
    assert_eq!(parse_u32("-1"), None);
    assert_eq!(parse_u32("4294967295"), Some(u32::MAX));
    assert_eq!(parse_u32("4294967296"), None);
    assert_eq!(parse_u32("99999999999x"), None);
    assert_eq!(parse_usize("1000"), Some(1000));
    assert_eq!(parse_usize("1e3"), None);
    assert_eq!(parse_u64("18446744073709551615"), Some(u64::MAX));
    assert_eq!(parse_u64("18446744073709551616"), None);
    assert_eq!(parse_decimal("10", 9), None);
    assert_eq!(parse_decimal("9", 9), Some(9));
    for t in ["", "+", "0", "+0", "12a", "1_0", "4294967296", "00000000000000000000001"] {
        assert_eq!(parse_u32(t), t.parse::<u32>().ok(), "{:?}", t);
    }
}

#[test]
fn ascii_case_folding() {
    assert!(eq_ignore_ascii_case("JPEG", "jpeg"));
    assert!(eq_ignore_ascii_case("PnG", "pNg"));
    assert!(!eq_ignore_ascii_case("png", "pngs"));
    assert!(!eq_ignore_ascii_case("é", "É"));
}
