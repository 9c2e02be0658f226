use weasel::geometry::{add_within, half, lower, pixels, saturate, scale_down, sub_within, upper};
use weasel::text::{
    char_len, contains_nul, decimal_text, first_chars, is_blank, join2, join3, join_all,
    keep_end_within, len_bytes, same_text, strip_nul, truncate_within, utf16_count,
};

#[test]
fn texts_are_measured_in_bytes_and_units() {
    assert_eq!(len_bytes("a中😀"), 8);
    assert_eq!(utf16_count("a中😀"), 4);
    assert_eq!(
        [char_len('a'), char_len('é'), char_len('中'), char_len('😀')],
        [1, 2, 3, 4]
    );
}

#[test]
fn texts_are_joined_and_compared() {
    assert_eq!(join2("a", "b"), "ab");
    assert_eq!(join3("a", "", "c"), "ac");
    assert_eq!(join_all(&vec!["a".into(), "b".into(), "c".into()], ", "), "a, b, c");
    assert_eq!(join_all(&vec![], ", "), "");
    assert!(same_text("a", "a") && !same_text("a", "b"));
    assert_eq!(decimal_text(0), "0");
    assert_eq!(decimal_text(u64::MAX), "18446744073709551615");
}

#[test]
fn texts_are_cut_between_characters() {
    assert_eq!(truncate_within("中文", 4), "中");
    assert_eq!(keep_end_within("中文", 4), "文");
    assert_eq!(keep_end_within("ab", 9), "ab");
    assert_eq!(first_chars("中文字", 2), "中文");
    assert_eq!(strip_nul("a\0\0b"), "ab");
    assert!(contains_nul("a\0") && !contains_nul("a0"));
}

#[test]
fn white_space_alone_is_blank() {
    assert!(is_blank("") && is_blank(" \t\n\u{3000}"));
    assert!(!is_blank(" x "));
    for c in '\0'..=char::MAX {
        assert_eq!(is_blank(c.encode_utf8(&mut [0; 4])), c.is_whitespace());
    }
}

#[test]
fn coordinates_stay_within_their_type() {
    assert_eq!(saturate(1 << 40), i32::MAX);
    assert_eq!(saturate(-(1 << 40)), i32::MIN);
    assert_eq!(add_within(i32::MAX, 1), i32::MAX);
    assert_eq!(sub_within(i32::MIN, 1), i32::MIN);
    assert_eq!((upper(2, 3), lower(2, 3)), (3, 2));
    assert_eq!((half(7), half(-7)), (3, -3));
    assert_eq!(pixels(10, 144), 15);
    assert_eq!(scale_down(-7, 1, 2), -4);
}
