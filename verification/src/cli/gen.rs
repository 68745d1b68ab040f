//! The gen subcommand: produce a code for a registered service.

use vstd::prelude::*;
use crate::crypto::{argon2_key, decrypted_bytes, parse_envelope, AesData};
use crate::errors::TufaError;
use crate::otp::{base32_decode, normalize_secret, Totp};
use vstd::utf8::{decode_utf8, valid_utf8};

verus! {

/// Asks for a fresh code for one registered service.
pub struct Cmd {
    /// The service to generate a code for.
    pub service: String,
    /// Print only the code, for piping into other tools.
    pub oneshot: bool,
}

/// The generator for a stored service record. An encrypted record's secret
/// is an envelope: it is parsed and decrypted with the password first. A
/// plain record's secret is used as it stands. Either way the secret text
/// is then decoded as base32, and every failure along the way is passed
/// through: parsing, key derivation, tag verification, text decoding and
/// base32 decoding each report their own error.
pub fn generate_otp(secret: &str, encrypted: bool, password: &str) -> (r: Result<Totp, TufaError>)
    ensures
        !encrypted ==> (r is Ok <==> base32_decode(normalize_secret(secret@)) is Some),
        !encrypted ==> (r matches Ok(t) ==> Some(t.secret@) == base32_decode(
            normalize_secret(secret@),
        ) && t.max_digits == 6 && t.reference_time == 0 && t.window == 30),
        !encrypted ==> (r matches Err(e) ==> e == TufaError::InvalidSecretEncoding),
        encrypted ==> (match parse_envelope(secret@) {
            None => r == Err::<Totp, TufaError>(TufaError::MalformedEnvelope),
            Some(env) => (if argon2_key(password@, env.salt) is None {
                r == Err::<Totp, TufaError>(TufaError::KeyDerivation)
            } else {
                match decrypted_bytes(env, password@) {
                    None => r == Err::<Totp, TufaError>(TufaError::Authentication),
                    Some(b) => (if !valid_utf8(b) {
                        r == Err::<Totp, TufaError>(TufaError::Encoding)
                    } else {
                        match base32_decode(normalize_secret(decode_utf8(b))) {
                            None => r == Err::<Totp, TufaError>(TufaError::InvalidSecretEncoding),
                            Some(sec) => r matches Ok(t) && t.secret@ == sec && t.max_digits == 6
                                && t.reference_time == 0 && t.window == 30,
                        }
                    }),
                }
            }),
        }),
        r matches Ok(t) ==> t.wf(),
{
    if encrypted {
        let env = match AesData::parse(secret) {
            Ok(e) => e,
            Err(_) => {
                return Err(TufaError::MalformedEnvelope);
            },
        };
        let plaintext = env.decrypt(password)?;
        Totp::simple(plaintext.as_str())
    } else {
        Totp::simple(secret)
    }
}

} // verus!
