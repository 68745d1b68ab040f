use tufa::crypto::{hash_password, verify_password, AesData};
use tufa::errors::TufaError;

#[test]
fn test_hashing() {
    let password = "supersecret";
    let hash = hash_password(password).unwrap();

    assert!(verify_password(password, &hash));
}

#[test]
fn test_encryption() {
    let plaintext = "this is super secret";
    let password = "password";
    let aes_data: AesData = AesData::encrypt(plaintext, password).unwrap();

    assert_eq!(plaintext, aes_data.decrypt(password).unwrap());
}

#[test]
fn test_empty_plaintext_round_trip() {
    let env = AesData::encrypt("", "password").unwrap();
    assert_eq!("", env.decrypt("password").unwrap());
    assert_eq!(env.ciphertext.len(), 16);
}

#[test]
fn test_serialize_parse_round_trip() {
    let env = AesData::encrypt("round trip me", "pw").unwrap();
    let text = env.serialize();
    let parsed = AesData::parse(&text).unwrap();
    assert_eq!(parsed.nonce, env.nonce);
    assert_eq!(parsed.salt, env.salt);
    assert_eq!(parsed.ciphertext, env.ciphertext);
    assert_eq!("round trip me", parsed.decrypt("pw").unwrap());
}

#[test]
fn test_parse_handcrafted_envelope() {
    let text = "000102030405060708090a0b$QUJDREVG$deadbeef";
    let env = AesData::parse(text).unwrap();
    assert_eq!(env.nonce, vec![0u8, 1, 2, 3, 4, 5, 6, 7, 8, 9, 10, 11]);
    assert_eq!(env.salt, "QUJDREVG");
    assert_eq!(env.ciphertext, vec![0xdeu8, 0xad, 0xbe, 0xef]);
    assert_eq!(env.serialize(), text);
}

#[test]
fn test_parse_uppercase_hex() {
    let text = "000102030405060708090A0B$QUJDREVG$DEADBEEF";
    let env = AesData::parse(text).unwrap();
    assert_eq!(env.nonce, vec![0u8, 1, 2, 3, 4, 5, 6, 7, 8, 9, 10, 11]);
    assert_eq!(env.ciphertext, vec![0xdeu8, 0xad, 0xbe, 0xef]);
    // Serialization is canonical lowercase.
    assert_eq!(env.serialize(), "000102030405060708090a0b$QUJDREVG$deadbeef");
}

#[test]
fn test_parse_rejects_extra_fields() {
    assert_eq!(
        AesData::parse("000102030405060708090a0b$QUJD$beef$junk$more").unwrap_err(),
        TufaError::MalformedEnvelope
    );
    assert_eq!(
        AesData::parse("000102030405060708090a0b$QUJD$$").unwrap_err(),
        TufaError::MalformedEnvelope
    );
    assert_eq!(
        AesData::parse("000102030405060708090a0b$QUJD$beef$").unwrap_err(),
        TufaError::MalformedEnvelope
    );
}

#[test]
fn test_parse_rejects_missing_delimiters() {
    assert_eq!(
        AesData::parse("no delimiters at all").unwrap_err(),
        TufaError::MalformedEnvelope
    );
    assert_eq!(
        AesData::parse("only$one").unwrap_err(),
        TufaError::MalformedEnvelope
    );
    assert_eq!(AesData::parse("").unwrap_err(), TufaError::MalformedEnvelope);
}

#[test]
fn test_parse_rejects_bad_fields() {
    // Nonce is not hex.
    assert_eq!(
        AesData::parse("zz0102030405060708090a0b$QUJD$beef").unwrap_err(),
        TufaError::MalformedEnvelope
    );
    // Nonce is hex but not 12 bytes.
    assert_eq!(
        AesData::parse("aabb$QUJD$beef").unwrap_err(),
        TufaError::MalformedEnvelope
    );
    // Nonce has odd length.
    assert_eq!(
        AesData::parse("00102030405060708090a0b$QUJD$beef").unwrap_err(),
        TufaError::MalformedEnvelope
    );
    // Salt holds a character outside the salt alphabet.
    assert_eq!(
        AesData::parse("000102030405060708090a0b$QU JD$beef").unwrap_err(),
        TufaError::MalformedEnvelope
    );
    // Salt is too short.
    assert_eq!(
        AesData::parse("000102030405060708090a0b$QUJ$beef").unwrap_err(),
        TufaError::MalformedEnvelope
    );
    // Ciphertext is not hex.
    assert_eq!(
        AesData::parse("000102030405060708090a0b$QUJD$beefxx").unwrap_err(),
        TufaError::MalformedEnvelope
    );
}

#[test]
fn test_wrong_password_fails_authentication() {
    let env = AesData::encrypt("secret data", "right password").unwrap();
    assert_eq!(
        env.decrypt("wrong password").unwrap_err(),
        TufaError::Authentication
    );
}

#[test]
fn test_tamper_detection() {
    let env = AesData::encrypt("secret data", "password").unwrap();
    let text = env.serialize();
    // Flip the last hex digit of the ciphertext field.
    let mut chars: Vec<char> = text.chars().collect();
    let last = chars.len() - 1;
    chars[last] = if chars[last] == '0' { '1' } else { '0' };
    let tampered: String = chars.into_iter().collect();
    let parsed = AesData::parse(&tampered).unwrap();
    assert_eq!(
        parsed.decrypt("password").unwrap_err(),
        TufaError::Authentication
    );
}

#[test]
fn test_tampered_nonce_fails_authentication() {
    let env = AesData::encrypt("secret data", "password").unwrap();
    let text = env.serialize();
    let mut chars: Vec<char> = text.chars().collect();
    chars[0] = if chars[0] == '0' { '1' } else { '0' };
    let tampered: String = chars.into_iter().collect();
    let parsed = AesData::parse(&tampered).unwrap();
    assert_eq!(
        parsed.decrypt("password").unwrap_err(),
        TufaError::Authentication
    );
}

#[test]
fn test_encryption_is_not_deterministic() {
    let e1 = AesData::encrypt("same plaintext", "same password").unwrap();
    let e2 = AesData::encrypt("same plaintext", "same password").unwrap();
    assert_ne!(e1.nonce, e2.nonce);
    assert_ne!(e1.salt, e2.salt);
    assert_ne!(e1.ciphertext, e2.ciphertext);
}

#[test]
fn test_key_derivation_refusal_is_reported() {
    // Parseable envelopes whose salt the key-derivation function refuses:
    // one decodes to fewer bytes than it requires, one holds characters
    // outside its strict decoding alphabet.
    let short_salt = AesData::parse("000102030405060708090a0b$QUJD$beef").unwrap();
    assert_eq!(
        short_salt.decrypt("pw").unwrap_err(),
        TufaError::KeyDerivation
    );

    let dotted_salt = AesData::parse("000102030405060708090a0b$AB.DEFGHIJKL$beef").unwrap();
    assert_eq!(
        dotted_salt.decrypt("pw").unwrap_err(),
        TufaError::KeyDerivation
    );
}

#[test]
fn test_verify_password_malformed_hash_is_false() {
    assert!(!verify_password("password", "not a phc hash"));
    assert!(!verify_password("password", ""));
    assert!(!verify_password("password", "$argon2id$nonsense"));
}

#[test]
fn test_verify_password_wrong_password_is_false() {
    let hash = hash_password("one password").unwrap();
    assert!(!verify_password("another password", &hash));
}
