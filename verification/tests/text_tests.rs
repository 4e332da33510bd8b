use bug_tracker::text::{is_blank, is_white_space, joined, starts_with, str_eq};

#[test]
fn white_space_is_what_std_says() {
    for n in 0u32..=0x10FFFF {
        if let Some(c) = char::from_u32(n) {
            assert_eq!(is_white_space(c), c.is_whitespace(), "at {:#x}", n);
        }
    }
}

#[test]
fn blank_is_empty_after_trim() {
    for s in ["", " ", "\t\n", "\u{3000}\u{a0}", " a ", "x", "\u{200b}", " \u{2028} "] {
        assert_eq!(is_blank(s), s.trim().is_empty(), "for {:?}", s);
    }
}

#[test]
fn text_helpers() {
    assert!(str_eq("abc", "abc"));
    assert!(!str_eq("abc", "abd"));
    assert!(!str_eq("abc", "ab"));
    assert!(starts_with("Bearer x", "Bearer "));
    assert!(!starts_with("Bear", "Bearer "));
    assert_eq!(joined("Failed: ", "boom"), "Failed: boom");
}
