use nmd_core::utility::characters::char_is_whitespace;
use nmd_core::utility::text_utility::{lines, trim};

#[test]
fn white_space_is_that_of_the_standard_library() {
    for u in 0u32..=0x10FFFF {
        if let Some(c) = char::from_u32(u) {
            assert_eq!(char_is_whitespace(c), c.is_whitespace(), "{:x}", u);
        }
    }
}

#[test]
fn lines_and_trim_follow_the_standard_library() {
    for text in ["", "a", "a\n", "a\r\nb\n\r\nc\r", "\n\nx\n", " \u{3000} a b\t\u{85}"] {
        let expected: Vec<String> = text.lines().map(String::from).collect();
        assert_eq!(lines(text), expected);
        assert_eq!(trim(text), text.trim());
    }
}
