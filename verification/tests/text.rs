use qdrant_edge_sync::text::{
    decimal_text, is_white_space, join_texts, trim, without_trailing_slashes,
};

#[test]
fn numbers_are_written_in_decimal() {
    for n in [0u64, 7, 9, 10, 42, 100, 4294967295, 18446744073709551615] {
        assert_eq!(decimal_text(n), format!("{}", n));
    }
    assert_ne!(decimal_text(12), decimal_text(21));
}

#[test]
fn white_space_is_that_of_unicode() {
    for code in 0u32..=0x10ffff {
        if let Some(c) = char::from_u32(code) {
            assert_eq!(is_white_space(c), c.is_whitespace());
        }
    }
}

#[test]
fn trimming_removes_outer_white_space() {
    for s in ["", " ", "\t\n", " key ", "a b", "\u{2003}a\u{3000}", "äö ", " \u{85}x\u{a0}y\u{1680}"] {
        assert_eq!(trim(s), s.trim());
    }
    assert_eq!(trim(trim("  a  b ")), "a  b");
}

#[test]
fn trailing_slashes_are_removed() {
    assert_eq!(without_trailing_slashes("http://host:6333//"), "http://host:6333");
    assert_eq!(without_trailing_slashes("http://host/a"), "http://host/a");
    assert_eq!(without_trailing_slashes("///"), "");
    assert_eq!(without_trailing_slashes(""), "");
}

#[test]
fn parts_are_joined_in_order() {
    let parts = vec![String::from("a"), String::from(""), String::from("c")];
    assert_eq!(join_texts(&parts, "; "), "a; ; c");
    assert_eq!(join_texts(&vec![String::from("one")], "; "), "one");
    assert_eq!(join_texts(&Vec::new(), "; "), "");
}
