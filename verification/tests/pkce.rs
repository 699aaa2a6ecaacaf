use pandora_launcher::pkce::{derive_challenge, new_secret, secret_from, SECRET_BYTES};

#[test]
fn challenge_is_the_digest_of_the_verifier_as_url_safe_text() {
    assert_eq!(
        derive_challenge("dBjftJeZ4CVP-mB92K27uhbUJU1p1r_wW1gFWFOEjXk"),
        "E9Melhoa2OwvFrEMTJguCHaoeK1t8URWbuGJSstw-cM"
    );
    assert_eq!(derive_challenge(""), "47DEQpj8HBSa-_TImW-5JCeuQeRkm5NMpJWZG3hSuFU");
    assert_ne!(derive_challenge("a"), "a");
}

#[test]
fn secret_is_the_text_of_its_bytes() {
    assert_eq!(SECRET_BYTES, 32);
    assert_eq!(secret_from(&[0u8; 32]), "A".repeat(43));
    assert_eq!(secret_from(&[0xfb, 0xff]), "-_8");
    assert_eq!(secret_from(&[]), "");
    assert_eq!(secret_from(b"hello internet~"), "aGVsbG8gaW50ZXJuZXR-");
}

#[test]
fn fresh_secrets_are_url_safe_and_differ() {
    let first = new_secret();
    let second = new_secret();
    assert_eq!(first.len(), 43);
    assert_eq!(second.len(), 43);
    assert!(first
        .chars()
        .all(|c| c.is_ascii_alphanumeric() || c == '-' || c == '_'));
    assert_ne!(first, second);
}
