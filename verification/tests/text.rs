use tiktoken_lexer::text::{byte_len, is_boundary, next_boundary, slice};

#[test]
fn byte_len_counts_bytes_not_characters() {
    assert_eq!(byte_len(""), 0);
    assert_eq!(byte_len("abc"), 3);
    assert_eq!(byte_len("h\u{e9}llo"), 6);
    assert_eq!(byte_len("\u{4f60}\u{597d}"), 6);
    assert_eq!(byte_len("\u{1f44d}"), 4);
}

#[test]
fn boundaries_fall_between_characters() {
    let text = "a\u{e9}\u{4f60}\u{1f44d}";
    let expected = [true, true, false, true, false, false, true, false, false, false, true];
    for (at, on) in expected.iter().enumerate() {
        assert_eq!(is_boundary(text, at), *on);
    }
    assert!(!is_boundary(text, 11));
    assert!(!is_boundary(text, usize::MAX));
    assert!(is_boundary("", 0));
    assert!(!is_boundary("", 1));
}

#[test]
fn next_boundary_moves_one_code_point() {
    let text = "a\u{e9}\u{4f60}\u{1f44d}";
    assert_eq!(next_boundary(text, 0), 1);
    assert_eq!(next_boundary(text, 1), 3);
    assert_eq!(next_boundary(text, 3), 6);
    assert_eq!(next_boundary(text, 6), 10);
    assert_eq!(next_boundary(text, 2), 3);
    assert_eq!(next_boundary(text, 7), 10);
    assert_eq!(next_boundary(text, 9), 10);
}

#[test]
fn slice_cuts_whole_characters() {
    let text = "a\u{e9}\u{4f60}\u{1f44d}";
    assert_eq!(slice(text, 0, 0), "");
    assert_eq!(slice(text, 0, 1), "a");
    assert_eq!(slice(text, 1, 3), "\u{e9}");
    assert_eq!(slice(text, 1, 6), "\u{e9}\u{4f60}");
    assert_eq!(slice(text, 6, 10), "\u{1f44d}");
    assert_eq!(slice(text, 10, 10), "");
    assert_eq!(slice(text, 0, 10), text);
}
