use tufa::errors::TufaError;
use tufa::otp::{format_code, Totp};

// RFC example
#[test]
fn test_totp() {
    let test_secret = "12345678901234567890";
    let totp = Totp::from_bytes(test_secret.as_bytes().to_vec(), 8, 0, 30);
    let now: u64 = 59;
    let counter: u64 = (now - totp.reference_time) / totp.window;

    let otp = totp.hotp(&counter.to_be_bytes()).unwrap();

    assert_eq!(otp, "94287082");
}

#[test]
fn test_rfc6238_sha1_vectors() {
    let key = b"12345678901234567890".to_vec();
    let totp = Totp::from_bytes(key, 8, 0, 30);
    assert_eq!(totp.generate(59).unwrap(), "94287082");
    assert_eq!(totp.generate(1111111109).unwrap(), "07081804");
    assert_eq!(totp.generate(1111111111).unwrap(), "14050471");
    assert_eq!(totp.generate(1234567890).unwrap(), "89005924");
    assert_eq!(totp.generate(2000000000).unwrap(), "69279037");
    assert_eq!(totp.generate(20000000000).unwrap(), "65353130");
}

#[test]
fn test_rfc4226_hotp_vectors() {
    let expected = [
        "755224", "287082", "359152", "969429", "338314", "254676", "287922", "162583", "399871",
        "520489",
    ];
    let totp = Totp::from_bytes(b"12345678901234567890".to_vec(), 6, 0, 30);
    for (counter, want) in expected.iter().enumerate() {
        let code = totp.hotp(&(counter as u64).to_be_bytes()).unwrap();
        assert_eq!(&code, want);
    }
}

#[test]
fn test_base32_secret() {
    // The RFC key "12345678901234567890" in unpadded base32.
    let totp = Totp::new("GEZDGNBVGY3TQOJQGEZDGNBVGY3TQOJQ", 8, 0, 30).unwrap();
    assert_eq!(totp.generate(59).unwrap(), "94287082");
}

#[test]
fn test_base32_whitespace_and_case_are_ignored() {
    let totp = Totp::new("gezd gnbv gy3t qojq\tgezd gnbv gy3t qojq\n", 8, 0, 30).unwrap();
    assert_eq!(totp.generate(59).unwrap(), "94287082");
}

#[test]
fn test_simple_defaults() {
    let totp = Totp::simple("GEZDGNBVGY3TQOJQGEZDGNBVGY3TQOJQ").unwrap();
    assert_eq!(totp.max_digits, 6);
    assert_eq!(totp.reference_time, 0);
    assert_eq!(totp.window, 30);
    // Six digits: the tail of the eight-digit vector for the same time.
    assert_eq!(totp.generate(59).unwrap(), "287082");
}

#[test]
fn test_invalid_base32_is_rejected() {
    // '1', '8', '9' and '0' are outside the RFC 4648 alphabet.
    assert_eq!(
        Totp::new("12345678901234567890", 8, 0, 30).unwrap_err(),
        TufaError::InvalidSecretEncoding
    );
    // Padding is not accepted in the unpadded alphabet.
    assert_eq!(
        Totp::new("GEZA====", 6, 0, 30).unwrap_err(),
        TufaError::InvalidSecretEncoding
    );
}

#[test]
fn test_time_before_reference_is_clock_error() {
    let totp = Totp::from_bytes(b"12345678901234567890".to_vec(), 6, 100, 30);
    assert_eq!(totp.generate(99).unwrap_err(), TufaError::Clock);
    assert_eq!(totp.generate(100).unwrap(), totp.hotp(&0u64.to_be_bytes()).unwrap());
}

#[test]
fn test_counter_uses_floor_division() {
    let totp = Totp::from_bytes(b"12345678901234567890".to_vec(), 8, 0, 30);
    // 59 seconds is still counter 1, not a rounded 2.
    assert_eq!(totp.generate(30).unwrap(), totp.generate(59).unwrap());
    assert_ne!(totp.generate(59).unwrap(), totp.generate(60).unwrap());
}

#[test]
fn test_zero_padding() {
    assert_eq!(format_code(82, 6), "000082");
    assert_eq!(format_code(0, 6), "000000");
    assert_eq!(format_code(7, 1), "7");
    assert_eq!(format_code(94287082, 8), "94287082");
}

#[test]
fn test_generate_now_shape() {
    let totp = Totp::simple("GEZDGNBVGY3TQOJQGEZDGNBVGY3TQOJQ").unwrap();
    let code = totp.generate_now().unwrap();
    assert_eq!(code.len(), 6);
    assert!(code.chars().all(|c| c.is_ascii_digit()));
}
