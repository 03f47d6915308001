use tiktoken_lexer::compare::{compare_pieces, Difference};

fn strings(items: &[&str]) -> Vec<String> {
    items.iter().map(|s| s.to_string()).collect()
}

#[test]
fn equal_sequences_have_no_difference() {
    assert_eq!(compare_pieces(&strings(&[]), &strings(&[])), None);
    assert_eq!(compare_pieces(&strings(&["a"]), &strings(&["a"])), None);
    assert_eq!(
        compare_pieces(&strings(&["Hello", " world"]), &strings(&["Hello", " world"])),
        None
    );
}

#[test]
fn first_differing_piece_is_reported() {
    let expected = strings(&["a", "b", "c", "d"]);
    let actual = strings(&["a", "x", "c", "y"]);
    assert_eq!(
        compare_pieces(&expected, &actual),
        Some(Difference { index: 1, expected: Some("b".to_string()), actual: Some("x".to_string()) })
    );
}

#[test]
fn comparison_is_case_sensitive_and_exact() {
    assert_eq!(
        compare_pieces(&strings(&["Hello"]), &strings(&["hello"])),
        Some(Difference {
            index: 0,
            expected: Some("Hello".to_string()),
            actual: Some("hello".to_string())
        })
    );
    assert_eq!(
        compare_pieces(&strings(&[" a"]), &strings(&["a"])),
        Some(Difference { index: 0, expected: Some(" a".to_string()), actual: Some("a".to_string()) })
    );
    assert_eq!(
        compare_pieces(&strings(&["\u{e9}"]), &strings(&["e\u{301}"])),
        Some(Difference {
            index: 0,
            expected: Some("\u{e9}".to_string()),
            actual: Some("e\u{301}".to_string())
        })
    );
}

#[test]
fn missing_piece_is_reported_at_the_shorter_length() {
    assert_eq!(
        compare_pieces(&strings(&["a", "b"]), &strings(&["a"])),
        Some(Difference { index: 1, expected: Some("b".to_string()), actual: None })
    );
    assert_eq!(
        compare_pieces(&strings(&[]), &strings(&["a"])),
        Some(Difference { index: 0, expected: None, actual: Some("a".to_string()) })
    );
}

#[test]
fn same_pieces_in_another_order_differ() {
    assert_eq!(
        compare_pieces(&strings(&["a", "b"]), &strings(&["b", "a"])),
        Some(Difference { index: 0, expected: Some("a".to_string()), actual: Some("b".to_string()) })
    );
}

#[test]
fn regrouped_text_differs() {
    assert_eq!(
        compare_pieces(&strings(&["ab", "c"]), &strings(&["a", "bc"])),
        Some(Difference { index: 0, expected: Some("ab".to_string()), actual: Some("a".to_string()) })
    );
}
