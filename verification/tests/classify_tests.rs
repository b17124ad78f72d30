use scanline::mock_external_service;

#[test]
fn classify_empty_is_false() {
    assert!(!mock_external_service(""));
}

#[test]
fn classify_whitespace_only_is_false() {
    assert!(!mock_external_service("   "));
    assert!(!mock_external_service(" \t\n\r"));
}

#[test]
fn classify_odd_length_is_false() {
    assert!(!mock_external_service("a"));
    assert!(!mock_external_service("abc"));
    assert!(!mock_external_service("12345"));
}

#[test]
fn classify_even_length_not_ending_nine_is_true() {
    assert!(mock_external_service("ab"));
    assert!(mock_external_service("1234"));
    assert!(mock_external_service("90"));
}

#[test]
fn classify_ending_nine_is_false() {
    assert!(!mock_external_service("89"));
    assert!(!mock_external_service("1239"));
}

#[test]
fn classify_trims_surrounding_whitespace() {
    assert!(mock_external_service("  ab  "));
    assert!(mock_external_service("\tab\n"));
    assert!(!mock_external_service(" abc "));
    assert!(!mock_external_service("  1239  "));
}

#[test]
fn classify_is_deterministic() {
    let inputs = ["", "a", "ab", "abc", "1239", "  ab  ", "90"];
    for s in inputs {
        assert_eq!(mock_external_service(s), mock_external_service(s));
    }
}
