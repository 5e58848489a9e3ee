use kucoin_trade::signing::sign_message;

#[test]
fn sign_message_matches_hmac_sha256_test_vector() {
    let signature = sign_message("key", "The quick brown fox jumps over the lazy dog");
    assert_eq!(signature, "97yD9DBThCSxMpjmqm+xQ+9NWaFJRhdZl0edvC0aPNg=");
}

#[test]
fn sign_message_of_empty_inputs() {
    assert_eq!(sign_message("", ""), "thNnmggU2ex3L5XXeMNfxf8Wl8STcVZTxscSFEKSxa0=");
}

#[test]
fn sign_message_signs_utf8_bytes() {
    assert_eq!(sign_message("sécret", "pässphrase"), "1fWhys4tzvU/IUHtOvjpiXHQAB9pjsjPi0cdJuAwiHk=");
}

#[test]
fn sign_message_is_forty_four_base64_characters() {
    let signature = sign_message("another secret", "some message");
    assert_eq!(signature.len(), 44);
    assert!(signature.ends_with('='));
    assert!(signature
        .chars()
        .all(|c| c.is_ascii_alphanumeric() || c == '+' || c == '/' || c == '='));
}

#[test]
fn sign_message_depends_on_secret_and_message() {
    assert_ne!(sign_message("a", "m"), sign_message("b", "m"));
    assert_ne!(sign_message("a", "m"), sign_message("a", "n"));
    assert_eq!(sign_message("a", "m"), sign_message("a", "m"));
}
