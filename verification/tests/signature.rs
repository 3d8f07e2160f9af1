use ed25519_dalek::{Signer, SigningKey};
use gratitude::verification::{verify_signature, Error};

fn keypair() -> (SigningKey, String) {
    let sk = SigningKey::from_bytes(&[7u8; 32]);
    let pk_hex = hex::encode(sk.verifying_key().to_bytes());
    (sk, pk_hex)
}

fn sign(sk: &SigningKey, timestamp: &str, body: &str) -> String {
    let msg = format!("{}{}", timestamp, body);
    hex::encode(sk.sign(msg.as_bytes()).to_bytes())
}

#[test]
fn the_unmodified_triple_verifies() {
    let (sk, pk_hex) = keypair();
    let timestamp = "1700000000";
    let body = "{\"type\":1}";
    let sig_hex = sign(&sk, timestamp, body);
    assert!(verify_signature(&pk_hex, &sig_hex, timestamp, body).is_ok());
}

#[test]
fn any_altered_body_byte_is_rejected() {
    let (sk, pk_hex) = keypair();
    let timestamp = "1700000000";
    let body = "{\"type\":1}";
    let sig_hex = sign(&sk, timestamp, body);
    for i in 0..body.len() {
        let mut altered = body.as_bytes().to_vec();
        altered[i] = if altered[i] == b'x' { b'y' } else { b'x' };
        let altered = String::from_utf8(altered).unwrap();
        assert!(
            verify_signature(&pk_hex, &sig_hex, timestamp, &altered).is_err(),
            "altered body byte {} must fail",
            i
        );
    }
}

#[test]
fn any_altered_timestamp_byte_is_rejected() {
    let (sk, pk_hex) = keypair();
    let timestamp = "1700000000";
    let body = "{\"type\":1}";
    let sig_hex = sign(&sk, timestamp, body);
    for i in 0..timestamp.len() {
        let mut altered = timestamp.as_bytes().to_vec();
        altered[i] = if altered[i] == b'3' { b'4' } else { b'3' };
        let altered = String::from_utf8(altered).unwrap();
        assert!(
            verify_signature(&pk_hex, &sig_hex, &altered, body).is_err(),
            "altered timestamp byte {} must fail",
            i
        );
    }
}

#[test]
fn any_altered_signature_digit_is_rejected() {
    let (sk, pk_hex) = keypair();
    let timestamp = "1700000000";
    let body = "{\"type\":1}";
    let sig_hex = sign(&sk, timestamp, body);
    for i in 0..sig_hex.len() {
        let mut altered = sig_hex.as_bytes().to_vec();
        altered[i] = if altered[i] == b'0' { b'1' } else { b'0' };
        let altered = String::from_utf8(altered).unwrap();
        assert!(
            verify_signature(&pk_hex, &altered, timestamp, body).is_err(),
            "altered signature digit {} must fail",
            i
        );
    }
}

#[test]
fn upper_case_hex_is_accepted_too() {
    let (sk, pk_hex) = keypair();
    let timestamp = "1700000000";
    let body = "{\"type\":1}";
    let sig_hex = sign(&sk, timestamp, body);
    assert!(verify_signature(
        &pk_hex.to_uppercase(),
        &sig_hex.to_uppercase(),
        timestamp,
        body
    )
    .is_ok());
}

#[test]
fn malformed_hex_is_an_error_not_a_panic() {
    let (sk, pk_hex) = keypair();
    let sig_hex = sign(&sk, "t", "b");
    assert_eq!(
        verify_signature("zz", &sig_hex, "t", "b"),
        Err(Error::ParseHexFailed)
    );
    assert_eq!(
        verify_signature(&pk_hex, "abc", "t", "b"),
        Err(Error::ParseHexFailed)
    );
}

#[test]
fn a_key_of_the_wrong_length_is_invalid() {
    let (sk, _) = keypair();
    let sig_hex = sign(&sk, "t", "b");
    // 31 bytes of hex: valid hex, but no public key.
    let short = hex::encode([5u8; 31]);
    assert_eq!(
        verify_signature(&short, &sig_hex, "t", "b"),
        Err(Error::InvalidPublicKey)
    );
}

#[test]
fn a_signature_of_the_wrong_length_is_invalid() {
    let (_, pk_hex) = keypair();
    let short = hex::encode([5u8; 10]);
    assert_eq!(
        verify_signature(&pk_hex, &short, "t", "b"),
        Err(Error::InvalidSignature)
    );
}

#[test]
fn a_wrong_keys_signature_is_rejected() {
    let (sk, _) = keypair();
    let other = SigningKey::from_bytes(&[9u8; 32]);
    let pk_other = hex::encode(other.verifying_key().to_bytes());
    let sig_hex = sign(&sk, "t", "b");
    assert_eq!(
        verify_signature(&pk_other, &sig_hex, "t", "b"),
        Err(Error::InvalidSignature)
    );
}
