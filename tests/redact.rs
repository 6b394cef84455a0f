use hass_bridge::redact::mask;

#[test]
fn mask_keeps_last_four_of_configured_token() {
    assert_eq!(mask("abcdef1234"), "******1234");
}

#[test]
fn mask_five_characters_hides_one() {
    assert_eq!(mask("abcde"), "*bcde");
}

#[test]
fn mask_four_characters_unchanged() {
    assert_eq!(mask("abcd"), "abcd");
}

#[test]
fn mask_short_and_empty_unchanged() {
    assert_eq!(mask("ab"), "ab");
    assert_eq!(mask(""), "");
}

#[test]
fn mask_counts_characters_not_bytes() {
    let r = mask("héllowörld");
    assert_eq!(r, "******örld");
    assert_eq!(r.chars().count(), "héllowörld".chars().count());
}

#[test]
fn mask_long_token_shape() {
    let token = "eyJhbGciOiJIUzI1NiJ9.payload.signature-xyz9";
    let r = mask(token);
    let n = token.chars().count();
    assert_eq!(r.chars().count(), n);
    assert!(r.chars().take(n - 4).all(|c| c == '*'));
    assert!(r.ends_with("xyz9"));
}
