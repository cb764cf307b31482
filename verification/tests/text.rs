//! Blank texts and trimming.

use voice_sessions::text::{blank, trim};

#[test]
fn white_space_is_that_of_unicode() {
    for code in 0..=0x10_ffff_u32 {
        if let Some(c) = char::from_u32(code) {
            assert_eq!(blank(c.encode_utf8(&mut [0; 4])), c.is_whitespace(), "{code:x}");
        }
    }
}

#[test]
fn blank_texts_hold_nothing_else() {
    assert!(blank(""));
    assert!(blank(" \t\n\u{3000}"));
    assert!(!blank("  x "));
}

#[test]
fn trimming_takes_both_ends() {
    for text in ["", " ", "x", "  x y\u{a0}", "\u{2003}语 音\n", " \u{200b} "] {
        assert_eq!(trim(text), text.trim());
    }
    assert_eq!(trim("  x y "), "x y");
}
