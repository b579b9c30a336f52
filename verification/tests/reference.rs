use ainews_rust::reference::{
    base_from_parts, classify, resolve_reference, BaseAddress, BaseError, ReferenceKind,
};
use ainews_rust::text::starts_with;

fn base() -> BaseAddress {
    BaseAddress { scheme: "https".to_string(), host: "example.com".to_string() }
}

#[test]
fn starts_with_compares_character_for_character() {
    assert!(starts_with("http://x", "http://"));
    assert!(starts_with("abc", ""));
    assert!(starts_with("", ""));
    assert!(starts_with("abc", "abc"));
    assert!(!starts_with("ab", "abc"));
    assert!(!starts_with("", "a"));
    assert!(!starts_with("Http://x", "http://"));
    assert!(!starts_with("xhttp://", "http://"));
    assert!(starts_with("\u{e9}t\u{e9}", "\u{e9}t"));
    assert!(!starts_with("e\u{301}t", "\u{e9}"));
}

#[test]
fn classify_absolute_references() {
    for reference in ["http://a", "https://a", "http://", "https://", "https://example.com/p?q#f"] {
        assert_eq!(classify(reference), ReferenceKind::Absolute, "{:?}", reference);
    }
}

#[test]
fn classify_root_relative_references() {
    for reference in ["/", "/a", "/a/b?c#d", "//host.test/p", "/http://a"] {
        assert_eq!(classify(reference), ReferenceKind::RootRelative, "{:?}", reference);
    }
}

#[test]
fn classify_every_other_reference_as_document_relative() {
    for reference in [
        "", "a", "a/b", "./a", "../a", "?q", "#f", " /a", " http://a", "HTTP://a", "Https://a",
        "http:/a", "https:a", "http//a", "ftp://a", "mailto:a@b.test", "http:",
    ] {
        assert_eq!(classify(reference), ReferenceKind::DocumentRelative, "{:?}", reference);
    }
}

#[test]
fn resolve_reference_keeps_an_absolute_reference() {
    let kept = resolve_reference(&base(), "https://other.test/p".to_string(), None);
    assert_eq!(kept, "https://other.test/p");
    let ignored = resolve_reference(&base(), "http://other.test".to_string(), Some("joined".to_string()));
    assert_eq!(ignored, "http://other.test");
}

#[test]
fn resolve_reference_puts_scheme_and_host_before_a_root_relative_reference() {
    let address = resolve_reference(&base(), "/relative/path".to_string(), None);
    assert_eq!(address, "https://example.com/relative/path");
    let ignored = resolve_reference(&base(), "/r".to_string(), Some("joined".to_string()));
    assert_eq!(ignored, "https://example.com/r");
    let other = BaseAddress { scheme: "ftp".to_string(), host: "".to_string() };
    assert_eq!(resolve_reference(&other, "//x".to_string(), None), "ftp:////x");
}

#[test]
fn resolve_reference_takes_the_joined_address_of_any_other_reference() {
    let joined = Some("https://example.com/page/local/resource".to_string());
    let address = resolve_reference(&base(), "local/resource".to_string(), joined);
    assert_eq!(address, "https://example.com/page/local/resource");
    let empty = resolve_reference(&base(), "".to_string(), Some("https://example.com/".to_string()));
    assert_eq!(empty, "https://example.com/");
}

#[test]
fn resolve_reference_falls_back_to_the_reference_itself() {
    assert_eq!(resolve_reference(&base(), "ftp://[::1".to_string(), None), "ftp://[::1");
    assert_eq!(resolve_reference(&base(), "".to_string(), None), "");
}

#[test]
fn base_from_parts_needs_an_address_with_a_host() {
    assert_eq!(base_from_parts(None), Err(BaseError::NotAbsolute));
    assert_eq!(base_from_parts(Some(("mailto".to_string(), None))), Err(BaseError::NoHost));
    assert_eq!(
        base_from_parts(Some(("https".to_string(), Some("example.com".to_string())))),
        Ok(base())
    );
    assert_eq!(
        base_from_parts(Some(("x".to_string(), Some("".to_string())))),
        Ok(BaseAddress { scheme: "x".to_string(), host: "".to_string() })
    );
}
