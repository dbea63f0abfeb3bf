use gtany::text::utf16_offset_to_utf8_line_col;

#[test]
fn at_text_beginning() {
    assert_eq!(utf16_offset_to_utf8_line_col(0, "asdf hjkl"), (1, 1));
}

#[test]
fn at_text_end() {
    assert_eq!(utf16_offset_to_utf8_line_col(10, "asdf hjkl"), (1, 10));
}

#[test]
fn in_text() {
    assert_eq!(utf16_offset_to_utf8_line_col(4, "asdf hjkl"), (1, 5));
}

#[test]
fn past_end_of_text() {
    assert_eq!(utf16_offset_to_utf8_line_col(12, "asdf hjkl"), (1, 10));
}

#[test]
fn on_another_line() {
    assert_eq!(utf16_offset_to_utf8_line_col(7, "asdf\nhjkl\nzxcv"), (2, 3));
}

#[test]
fn at_beginning_of_surrogate_pair() {
    assert_eq!(utf16_offset_to_utf8_line_col(5, "asdf 🇺🇸"), (1, 6));
}

#[test]
fn at_end_of_surrogate_pair() {
    assert_eq!(utf16_offset_to_utf8_line_col(9, "asdf 🇺🇸"), (1, 14));
}

#[test]
fn in_middle_of_surrogate_pair() {
    assert_eq!(utf16_offset_to_utf8_line_col(6, "asdf 🇺🇸"), (1, 6));
}

#[test]
fn right_after_two_byte_sequence() {
    assert_eq!(utf16_offset_to_utf8_line_col(1, "àsdf hjkl"), (1, 3));
}

#[test]
fn after_two_byte_sequence() {
    assert_eq!(utf16_offset_to_utf8_line_col(4, "àsdf hjkl"), (1, 6));
}

#[test]
fn right_before_utf16_surrogate_pair() {
    assert_eq!(utf16_offset_to_utf8_line_col(10, "linear A: 𝘗 (U+10617)"), (1, 11));
}

#[test]
fn in_middle_of_utf16_surrogate_pair() {
    assert_eq!(utf16_offset_to_utf8_line_col(11, "linear A: 𝘗 (U+10617)"), (1, 11));
}

#[test]
fn right_after_utf16_surrogate_pair() {
    assert_eq!(utf16_offset_to_utf8_line_col(12, "linear A: 𝘗 (U+10617)"), (1, 15));
}

#[test]
fn after_utf16_surrogate_pair() {
    assert_eq!(utf16_offset_to_utf8_line_col(14, "linear A: 𝘗 (U+10617)"), (1, 17));
}

#[test]
fn column_resets_on_each_line_break() {
    assert_eq!(utf16_offset_to_utf8_line_col(5, "ab\ncd\nef"), (2, 3));
    assert_eq!(utf16_offset_to_utf8_line_col(6, "ab\ncd\nef"), (3, 1));
}

#[test]
fn empty_text_clamps_to_origin() {
    assert_eq!(utf16_offset_to_utf8_line_col(3, ""), (1, 1));
}
