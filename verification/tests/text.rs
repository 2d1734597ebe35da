use athenaeum::text::{
    is_blank, is_whitespace_char, join_text, trim_end_matching, trim_start_matching,
};

#[test]
fn trims_only_the_given_character_at_the_edges() {
    assert_eq!(trim_end_matching("a/b//", '/'), "a/b");
    assert_eq!(trim_end_matching("///", '/'), "");
    assert_eq!(trim_start_matching("//a/b/", '/'), "a/b/");
    assert_eq!(trim_start_matching("", '/'), "");
    assert_eq!(join_text("Bot ", "x"), "Bot x");
}

#[test]
fn recognizes_unicode_whitespace_like_str_trim() {
    for text in ["", " ", "\t\n\r", "\u{a0}\u{3000}\u{2009}\u{85}"] {
        assert!(is_blank(text));
        assert_eq!(is_blank(text), text.trim().is_empty());
    }
    for text in ["a", " a ", "\u{200b}", "_"] {
        assert!(!is_blank(text));
        assert_eq!(is_blank(text), text.trim().is_empty());
    }
    for code in 0u32..0x3100 {
        if let Some(c) = char::from_u32(code) {
            assert_eq!(is_whitespace_char(c), c.is_whitespace(), "{code:x}");
        }
    }
}
