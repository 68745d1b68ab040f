use vstd::prelude::*;

verus! {

/// Every failure the library can report, as a typed value.
///
/// Decryption failures are deliberately coarse: a wrong password, a
/// corrupted ciphertext and a corrupted nonce or salt are all reported as
/// `Authentication`, so a caller (or an attacker) cannot tell them apart.
#[derive(Clone, Copy, PartialEq, Eq, Structural, Debug)]
pub enum TufaError {
    /// An envelope string did not have three fields, or a field failed to decode.
    MalformedEnvelope,
    /// The authenticated cipher rejected the data: wrong password or tampering.
    Authentication,
    /// The key-derivation function failed to produce a 256-bit key.
    KeyDerivation,
    /// Decrypted bytes were not valid text.
    Encoding,
    /// The cipher primitive itself refused to encrypt.
    Crypto,
    /// A one-time-passcode secret was not valid base32.
    InvalidSecretEncoding,
    /// A passcode was requested for a time before the generator's reference time.
    Clock,
}

impl TufaError {
    /// A short description, for callers that print errors.
    pub fn message(&self) -> &'static str {
        match self {
            TufaError::MalformedEnvelope => "malformed encrypted secret",
            TufaError::Authentication => {
                "failed to decrypt: wrong password or corrupted data"
            },
            TufaError::KeyDerivation => "failed to derive an encryption key",
            TufaError::Encoding => "decrypted secret is not valid text",
            TufaError::Crypto => "the cipher failed to encrypt",
            TufaError::InvalidSecretEncoding => "secret is not valid base32",
            TufaError::Clock => "requested time lies before the reference time",
        }
    }
}

} // verus!
