//! The add subcommand: register a service and its shared secret.

use vstd::prelude::*;
use crate::crypto::{envelope_text, is_encryption_of, AesData, AesDataView};
use crate::errors::TufaError;
use vstd::utf8::encode_utf8;

verus! {

/// Registers a two-factor service under a name, with its shared secret,
/// optionally encrypted under a password.
pub struct Cmd {
    /// The name of the service to add.
    pub service: String,
    /// The shared secret the service provided.
    pub secret: String,
    /// Whether to encrypt the secret with a password before storing it.
    pub encrypted: bool,
}

/// The text persisted for a new service: with a password, the serialized
/// envelope of the freshly encrypted secret; without one, the secret
/// itself. Succeeds for every input within the cipher primitives' byte
/// caps.
pub fn stored_secret(secret: &str, password: Option<&str>) -> (r: Result<String, TufaError>)
    ensures
        password is None ==> (r matches Ok(s) && s@ == secret@),
        password matches Some(pw) ==> (r matches Ok(s) ==> exists|env: AesDataView|
            env.wf() && #[trigger] is_encryption_of(env, secret@, pw@) && s@ == envelope_text(
                env,
            )),
        (match password {
            Some(pw) => encode_utf8(pw@).len() <= 0xffff_ffff,
            None => true,
        }) && encode_utf8(secret@).len() <= 0x10_0000_0000 ==> r is Ok,
        r matches Err(e) ==> e == TufaError::KeyDerivation || e == TufaError::Crypto,
{
    match password {
        None => Ok(secret.to_owned()),
        Some(pw) => {
            let env = AesData::encrypt(secret, pw)?;
            let text = env.serialize();
            proof {
                assert(is_encryption_of(env@, secret@, pw@) && text@ == envelope_text(env@));
            }
            Ok(text)
        },
    }
}

} // verus!
