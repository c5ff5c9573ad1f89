use druid_core::text::same_text;

#[test]
fn equal_strings_are_the_same() {
    assert!(same_text("text/uri-list", "text/uri-list"));
    assert!(same_text("", ""));
    assert!(same_text("grüße", "grüße"));
}

#[test]
fn different_strings_are_not_the_same() {
    assert!(!same_text("text/uri-list", "text/plain"));
    assert!(!same_text("abc", "abd"));
    assert!(!same_text("abc", "ab"));
    assert!(!same_text("", "a"));
}
