// Webhook signature verification against digests computed with the real
// hmac and sha2 crates.

use hmac::Mac;
use sellix_rs::verify_signature;

fn digest_hex(secret: &str, body: &str) -> String {
    let mut mac = <hmac::Hmac<sha2::Sha512> as hmac::Mac>::new_from_slice(secret.as_bytes())
        .expect("any key length is accepted");
    mac.update(body.as_bytes());
    hex::encode(mac.finalize().into_bytes())
}

#[test]
fn correct_digest_verifies() {
    let secret = "test-webhook-secret";
    let body = "{\"event\":\"order:paid\",\"data\":{\"uniqid\":\"abc123\"}}";
    let signature = digest_hex(secret, body);
    assert!(verify_signature(secret, &signature, body));
}

#[test]
fn uppercase_digest_verifies_too() {
    let secret = "s";
    let body = "{}";
    let signature = digest_hex(secret, body).to_uppercase();
    assert!(verify_signature(secret, &signature, body));
}

#[test]
fn mutated_body_fails() {
    let secret = "test-webhook-secret";
    let body = "{\"event\":\"order:paid\",\"data\":{\"uniqid\":\"abc123\"}}";
    let signature = digest_hex(secret, body);
    // Flip each byte of the body in turn: none of the mutants verifies.
    let bytes = body.as_bytes();
    let mut i = 0;
    while i < bytes.len() {
        let mut mutated = bytes.to_vec();
        mutated[i] ^= 1;
        if let Ok(mutated_body) = String::from_utf8(mutated) {
            assert!(!verify_signature(secret, &signature, &mutated_body));
        }
        i += 1;
    }
}

#[test]
fn wrong_secret_fails() {
    let body = "payload";
    let signature = digest_hex("secret-one", body);
    assert!(!verify_signature("secret-two", &signature, body));
}

#[test]
fn malformed_hex_fails_instead_of_aborting() {
    assert!(!verify_signature("secret", "not-hex!", "body"));
    assert!(!verify_signature("secret", "abc", "body"));
    assert!(!verify_signature("secret", "", "body"));
}

#[test]
fn truncated_digest_fails() {
    let secret = "secret";
    let body = "body";
    let signature = digest_hex(secret, body);
    let truncated = &signature[..signature.len() - 2];
    assert!(!verify_signature(secret, truncated, body));
}
