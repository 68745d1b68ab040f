//! Password-based envelope encryption of secrets, and password hashing.
//!
//! An [`AesData`] envelope carries everything needed to decrypt a secret
//! given only the password: a 12-byte nonce, a self-describing textual salt,
//! and the ciphertext with its authentication tag. Its wire form is
//! `hex(nonce)$salt$hex(ciphertext)`.

use vstd::prelude::*;
use crate::errors::TufaError;
use crate::hexcode::{
    hex_decode, hex_decode_spec, hex_encode, hex_of, lemma_hex_no_dollar, lemma_hex_round_trip,
};
use crate::strutil::{chars_to_string, push_char, str_chars, string_from_utf8, subrange_chars};
use vstd::string::StringExecFns;
use vstd::utf8::{
    decode_utf8, decode_utf8_encode_utf8, encode_utf8, encode_utf8_decode_utf8,
    encode_utf8_valid_utf8, valid_utf8,
};
use aes_gcm::KeyInit;
use aes_gcm::aead::Aead;
use argon2::PasswordHasher;
use argon2::PasswordVerifier;

verus! {

/// A character the key-derivation library accepts inside a salt token.
pub open spec fn is_salt_char(c: char) -> bool {
    (65 <= c as u32 && c as u32 <= 90) || (97 <= c as u32 && c as u32 <= 122) || (48 <= c as u32
        && c as u32 <= 57) || c == '+' || c == '/' || c == '.' || c == '-'
}

/// A well-formed salt token: 4 to 64 salt characters. Such a token never
/// contains the `'$'` delimiter.
pub open spec fn is_valid_salt(s: Seq<char>) -> bool {
    4 <= s.len() <= 64 && forall|i: int| 0 <= i < s.len() ==> is_salt_char(#[trigger] s[i])
}

/// Everything needed to decrypt an encrypted secret later, except the password.
#[derive(Debug)]
pub struct AesData {
    /// 12 bytes, freshly drawn at random for every encryption.
    pub nonce: Vec<u8>,
    /// The salt the key was derived with, in its textual form.
    pub salt: String,
    /// AEAD output: the encrypted secret followed by the 16-byte tag.
    pub ciphertext: Vec<u8>,
}

/// The mathematical content of an [`AesData`] envelope.
pub struct AesDataView {
    pub nonce: Seq<u8>,
    pub salt: Seq<char>,
    pub ciphertext: Seq<u8>,
}

impl View for AesData {
    type V = AesDataView;

    open spec fn view(&self) -> AesDataView {
        AesDataView { nonce: self.nonce@, salt: self.salt@, ciphertext: self.ciphertext@ }
    }
}

impl AesDataView {
    /// The invariant every constructed envelope satisfies.
    pub open spec fn wf(self) -> bool {
        self.nonce.len() == 12 && is_valid_salt(self.salt)
    }
}

/// The envelope's wire form: three fields joined by `'$'`.
pub open spec fn envelope_text(v: AesDataView) -> Seq<char> {
    hex_of(v.nonce) + seq!['$'] + v.salt + seq!['$'] + hex_of(v.ciphertext)
}

/// The position of the first `'$'` at or after `from`, or the length.
pub open spec fn next_dollar(s: Seq<char>, from: int) -> int
    recommends
        0 <= from <= s.len(),
    decreases s.len() - from,
{
    if from >= s.len() {
        s.len() as int
    } else if s[from] == '$' {
        from
    } else {
        next_dollar(s, from + 1)
    }
}

/// The three `'$'`-separated fields of `s`, or nothing unless `s` holds
/// exactly two delimiters: fewer fields fail, and so do extra ones.
pub open spec fn split_fields(s: Seq<char>) -> Option<(Seq<char>, Seq<char>, Seq<char>)> {
    let i = next_dollar(s, 0);
    if i == s.len() {
        None
    } else {
        let j = next_dollar(s, i + 1);
        if j == s.len() {
            None
        } else if next_dollar(s, j + 1) != s.len() {
            None
        } else {
            Some((s.take(i), s.subrange(i + 1, j), s.subrange(j + 1, s.len() as int)))
        }
    }
}

/// What parsing an envelope string yields: the envelope whose nonce and
/// ciphertext fields are the hex-decoded first and third fields and whose
/// salt is the second, or nothing when a field fails to decode.
pub open spec fn parse_envelope(s: Seq<char>) -> Option<AesDataView> {
    match split_fields(s) {
        None => None,
        Some(fields) => {
            let (ns, ss, cs) = fields;
            match (hex_decode_spec(ns), hex_decode_spec(cs)) {
                (Some(nonce), Some(ciphertext)) => {
                    if nonce.len() == 12 && is_valid_salt(ss) {
                        Some(AesDataView { nonce, salt: ss, ciphertext })
                    } else {
                        None
                    }
                },
                _ => None,
            }
        },
    }
}

proof fn lemma_next_dollar_finds(s: Seq<char>, from: int, k: int)
    requires
        0 <= from <= k < s.len(),
        s[k] == '$',
        forall|j: int| from <= j < k ==> s[j] != '$',
    ensures
        next_dollar(s, from) == k,
    decreases k - from,
{
    if from < k {
        lemma_next_dollar_finds(s, from + 1, k);
    }
}

proof fn lemma_next_dollar_absent(s: Seq<char>, from: int)
    requires
        0 <= from <= s.len(),
        forall|j: int| from <= j < s.len() ==> s[j] != '$',
    ensures
        next_dollar(s, from) == s.len(),
    decreases s.len() - from,
{
    if from < s.len() {
        lemma_next_dollar_absent(s, from + 1);
    }
}

/// Parsing inverts serialization: a well-formed envelope's wire form parses
/// back to the identical envelope, field for field.
pub proof fn lemma_envelope_round_trip(v: AesDataView)
    requires
        v.wf(),
    ensures
        parse_envelope(envelope_text(v)) == Some(v),
{
    let s = envelope_text(v);
    let a = hex_of(v.nonce).len() as int;
    let b = v.salt.len() as int;
    let c = hex_of(v.ciphertext).len() as int;
    lemma_hex_no_dollar(v.nonce);
    lemma_hex_no_dollar(v.ciphertext);
    assert(s.len() == a + 1 + b + 1 + c);
    assert(s[a] == '$');
    assert(s[a + 1 + b] == '$');
    assert forall|j: int| 0 <= j < a implies s[j] != '$' by {
        assert(s[j] == hex_of(v.nonce)[j]);
    }
    lemma_next_dollar_finds(s, 0, a);
    assert forall|j: int| a + 1 <= j < a + 1 + b implies s[j] != '$' by {
        assert(s[j] == v.salt[j - (a + 1)]);
        assert(is_salt_char(v.salt[j - (a + 1)]));
    }
    lemma_next_dollar_finds(s, a + 1, a + 1 + b);
    assert forall|j: int| a + b + 2 <= j < s.len() implies s[j] != '$' by {
        assert(s[j] == hex_of(v.ciphertext)[j - (a + b + 2)]);
    }
    lemma_next_dollar_absent(s, a + b + 2);
    assert(s.take(a) =~= hex_of(v.nonce));
    assert(s.subrange(a + 1, a + 1 + b) =~= v.salt);
    assert(s.subrange(a + b + 2, s.len() as int) =~= hex_of(v.ciphertext));
    lemma_hex_round_trip(v.nonce);
    lemma_hex_round_trip(v.ciphertext);
}

/// What the key-derivation function yields for a password and a salt token:
/// the 256-bit key, or nothing when it refuses the inputs (a token outside
/// its charset or length bounds, one that does not decode to at least 8
/// bytes, or a password beyond its byte cap). Deterministic either way, so
/// deriving again for decryption gives the same key.
pub uninterp spec fn argon2_key(password: Seq<char>, salt: Seq<char>) -> Option<Seq<u8>>;

/// What AEAD decryption with AES-256-GCM yields for a key, nonce and
/// ciphertext-with-tag: the unique plaintext, or nothing when the tag does
/// not verify.
pub uninterp spec fn aes_gcm_decrypt(key: Seq<u8>, nonce: Seq<u8>, ciphertext: Seq<u8>) -> Option<
    Seq<u8>,
>;

/// Whether a password matches a self-describing password-hash string.
pub uninterp spec fn password_matches(password: Seq<char>, hash: Seq<char>) -> bool;

/// Whether a string parses as a self-describing PHC hash.
pub uninterp spec fn phc_parseable(hash: Seq<char>) -> bool;

/// The bytes that decrypting `env` with `password` would yield: nothing
/// when the key cannot be derived or the tag does not verify.
pub open spec fn decrypted_bytes(env: AesDataView, password: Seq<char>) -> Option<Seq<u8>> {
    match argon2_key(password, env.salt) {
        Some(key) => aes_gcm_decrypt(key, env.nonce, env.ciphertext),
        None => None,
    }
}

/// `env` is an encryption of `plaintext` under `password`: decrypting it
/// with the key derived from the password and its own salt yields exactly
/// the plaintext's bytes.
pub open spec fn is_encryption_of(
    env: AesDataView,
    plaintext: Seq<char>,
    password: Seq<char>,
) -> bool {
    decrypted_bytes(env, password) == Some(encode_utf8(plaintext))
}

/// Round trip: an envelope that is an encryption of `plaintext` under
/// `password` decrypts, under the same password, to valid text equal to
/// `plaintext` — never to anything else.
pub proof fn lemma_encrypt_decrypt_round_trip(
    env: AesDataView,
    plaintext: Seq<char>,
    password: Seq<char>,
)
    requires
        is_encryption_of(env, plaintext, password),
    ensures
        argon2_key(password, env.salt) is Some,
        decrypted_bytes(env, password) matches Some(b) && valid_utf8(b) && decode_utf8(b)
            == plaintext,
{
    encode_utf8_valid_utf8(plaintext);
    encode_utf8_decode_utf8(plaintext);
}

/// Relies on argon2's hash_password with default parameters: deterministic
/// in (password, salt) — every failure path tests only the salt token and
/// the password length — with 32 bytes of output on success.
#[verifier::external_body]
fn derive_key(password: &str, salt: &str) -> (r: Result<Vec<u8>, TufaError>)
    ensures
        r is Ok <==> argon2_key(password@, salt@) is Some,
        r matches Ok(k) ==> argon2_key(password@, salt@) == Some(k@) && k@.len() == 32,
        r matches Err(e) ==> e == TufaError::KeyDerivation,
{
    let salt = argon2::password_hash::Salt::from_b64(salt).map_err(|_| TufaError::KeyDerivation)?;
    let hash = argon2::Argon2::default().hash_password(password.as_bytes(), salt).map_err(
        |_| TufaError::KeyDerivation,
    )?;
    let out = hash.hash.ok_or(TufaError::KeyDerivation)?;
    let key: [u8; 32] = out.as_bytes().try_into().map_err(|_| TufaError::KeyDerivation)?;
    Ok(key.to_vec())
}

/// Relies on AES-256-GCM AEAD encryption (aes_gcm::Aes256Gcm): the output is
/// the ciphertext followed by the 16-byte tag, and decrypting it with the
/// same key and nonce yields the plaintext again. It refuses nothing but a
/// plaintext beyond the mode's 2^36-byte cap.
#[verifier::external_body]
fn aes256_encrypt(key: &[u8], nonce: &[u8], plaintext: &[u8]) -> (r: Result<Vec<u8>, TufaError>)
    requires
        key@.len() == 32,
        nonce@.len() == 12,
    ensures
        plaintext@.len() <= 0x10_0000_0000 ==> r is Ok,
        r matches Ok(c) ==> c@.len() == plaintext@.len() + 16 && aes_gcm_decrypt(key@, nonce@, c@)
            == Some(plaintext@),
        r matches Err(e) ==> e == TufaError::Crypto,
{
    let cipher = aes_gcm::Aes256Gcm::new(aes_gcm::Key::<aes_gcm::Aes256Gcm>::from_slice(key));
    cipher.encrypt(aes_gcm::Nonce::from_slice(nonce), plaintext).map_err(|_| TufaError::Crypto)
}

/// Relies on AES-256-GCM decrypt-and-verify (aes_gcm::Aes256Gcm):
/// deterministic in key, nonce and ciphertext; fails exactly when the
/// authentication tag does not verify.
#[verifier::external_body]
fn aes256_decrypt(key: &[u8], nonce: &[u8], ciphertext: &[u8]) -> (r: Option<Vec<u8>>)
    requires
        key@.len() == 32,
        nonce@.len() == 12,
    ensures
        r is Some <==> aes_gcm_decrypt(key@, nonce@, ciphertext@) is Some,
        r matches Some(p) ==> aes_gcm_decrypt(key@, nonce@, ciphertext@) == Some(p@),
{
    let cipher = aes_gcm::Aes256Gcm::new(aes_gcm::Key::<aes_gcm::Aes256Gcm>::from_slice(key));
    cipher.decrypt(aes_gcm::Nonce::from_slice(nonce), ciphertext).ok()
}

/// Relies on SaltString::generate over the operating system's random source:
/// a fresh 22-character B64 salt token on every call. Such a token decodes
/// to 16 bytes, which argon2 accepts, so key derivation under it fails only
/// for a password beyond argon2's byte cap.
#[verifier::external_body]
fn generate_salt() -> (r: String)
    ensures
        is_valid_salt(r@),
        forall|pw: Seq<char>|
            encode_utf8(pw).len() <= 0xffff_ffff ==> #[trigger] argon2_key(pw, r@) is Some,
{
    argon2::password_hash::SaltString::generate(
        &mut argon2::password_hash::rand_core::OsRng,
    ).as_str().to_owned()
}

/// Relies on OsRng::fill_bytes: 12 bytes from the operating system's random
/// source.
#[verifier::external_body]
fn generate_nonce() -> (r: Vec<u8>)
    ensures
        r@.len() == 12,
{
    let mut nonce = [0u8; 12];
    argon2::password_hash::rand_core::RngCore::fill_bytes(
        &mut argon2::password_hash::rand_core::OsRng,
        &mut nonce,
    );
    nonce.to_vec()
}

/// Hashes the password for authentication purposes, under a fresh random
/// salt, into the hash's self-describing string form.
///
/// Relies on argon2's hash_password: any string it returns is a parseable
/// PHC hash and verifies against the same password.
#[verifier::external_body]
pub fn hash_password(password: &str) -> (r: Result<String, TufaError>)
    ensures
        r matches Ok(h) ==> password_matches(password@, h@) && phc_parseable(h@),
        r matches Err(e) ==> e == TufaError::KeyDerivation,
{
    let salt = argon2::password_hash::SaltString::generate(
        &mut argon2::password_hash::rand_core::OsRng,
    );
    let hash = argon2::Argon2::default().hash_password(password.as_bytes(), &salt).map_err(
        |_| TufaError::KeyDerivation,
    )?;
    Ok(hash.to_string())
}

/// Whether the password matches a self-describing hash string. A malformed
/// hash string never errors: it simply does not match.
///
/// Relies on argon2's verify_password and PasswordHash parsing:
/// deterministic in (password, hash), and false whenever the hash string
/// does not parse.
#[verifier::external_body]
pub fn verify_password(password: &str, password_hash: &str) -> (r: bool)
    ensures
        r == password_matches(password@, password_hash@),
        !phc_parseable(password_hash@) ==> r == false,
{
    if let Ok(parsed) = argon2::password_hash::PasswordHash::new(password_hash) {
        argon2::Argon2::default().verify_password(password.as_bytes(), &parsed).is_ok()
    } else {
        false
    }
}

fn find_dollar(chars: &Vec<char>, from: usize) -> (r: usize)
    requires
        from <= chars@.len(),
    ensures
        from <= r <= chars@.len(),
        r == next_dollar(chars@, from as int),
{
    let n: usize = chars.len();
    let mut i: usize = from;
    while i < n
        invariant
            from <= i <= n,
            n == chars@.len(),
            next_dollar(chars@, from as int) == next_dollar(chars@, i as int),
        decreases n - i,
    {
        if chars[i] == '$' {
            return i;
        }
        i = i + 1;
    }
    i
}

fn salt_chars_valid(chars: &[char]) -> (r: bool)
    ensures
        r == is_valid_salt(chars@),
{
    let n: usize = chars.len();
    if n < 4 || n > 64 {
        return false;
    }
    let mut i: usize = 0;
    while i < n
        invariant
            i <= n,
            n == chars@.len(),
            forall|j: int| 0 <= j < i ==> is_salt_char(#[trigger] chars@[j]),
        decreases n - i,
    {
        let c = chars[i];
        let u = c as u32;
        let ok = (65 <= u && u <= 90) || (97 <= u && u <= 122) || (48 <= u && u <= 57) || c == '+'
            || c == '/' || c == '.' || c == '-';
        if !ok {
            return false;
        }
        i = i + 1;
    }
    true
}

impl AesData {
    /// Decodes the wire form `hex(nonce)$salt$hex(ciphertext)`. Fails, and
    /// only fails, when the number of `'$'` delimiters is not exactly two,
    /// a hex field does not decode, the nonce is not 12 bytes, or the salt
    /// is not a valid salt token.
    pub fn parse(s: &str) -> (r: Result<AesData, TufaError>)
        ensures
            r matches Ok(e) ==> parse_envelope(s@) == Some(e@) && e@.wf(),
            r is Err <==> parse_envelope(s@) is None,
            r matches Err(e) ==> e == TufaError::MalformedEnvelope,
    {
        let chars = str_chars(s);
        let n: usize = chars.len();
        let i = find_dollar(&chars, 0);
        if i == n {
            return Err(TufaError::MalformedEnvelope);
        }
        let j = find_dollar(&chars, i + 1);
        if j == n {
            return Err(TufaError::MalformedEnvelope);
        }
        let k = find_dollar(&chars, j + 1);
        if k != n {
            return Err(TufaError::MalformedEnvelope);
        }
        let nonce_chars = subrange_chars(&chars, 0, i);
        let salt_chars = subrange_chars(&chars, i + 1, j);
        let ct_chars = subrange_chars(&chars, j + 1, k);
        proof {
            assert(nonce_chars@ =~= chars@.take(i as int));
        }
        let nonce = match hex_decode(nonce_chars.as_slice()) {
            Some(v) => v,
            None => {
                return Err(TufaError::MalformedEnvelope);
            },
        };
        let ciphertext = match hex_decode(ct_chars.as_slice()) {
            Some(v) => v,
            None => {
                return Err(TufaError::MalformedEnvelope);
            },
        };
        if nonce.len() != 12 {
            return Err(TufaError::MalformedEnvelope);
        }
        if !salt_chars_valid(salt_chars.as_slice()) {
            return Err(TufaError::MalformedEnvelope);
        }
        let salt = chars_to_string(salt_chars.as_slice());
        Ok(AesData { nonce, salt, ciphertext })
    }

    /// Encrypts `plaintext` under a key derived from `password` and a fresh
    /// random salt, with a fresh random nonce; both are drawn anew on every
    /// call, so two calls never share them. Succeeds for every input within
    /// the primitives' byte caps, which no plaintext or password that fits
    /// in memory on this tool's scale approaches.
    pub fn encrypt(plaintext: &str, password: &str) -> (r: Result<AesData, TufaError>)
        ensures
            encode_utf8(password@).len() <= 0xffff_ffff && encode_utf8(plaintext@).len()
                <= 0x10_0000_0000 ==> r is Ok,
            r matches Ok(env) ==> env@.wf() && is_encryption_of(env@, plaintext@, password@)
                && env@.ciphertext.len() == encode_utf8(plaintext@).len() + 16,
            r matches Err(e) ==> e == TufaError::KeyDerivation || e == TufaError::Crypto,
    {
        let salt = generate_salt();
        let key = derive_key(password, salt.as_str())?;
        let nonce = generate_nonce();
        let ciphertext = aes256_encrypt(key.as_slice(), nonce.as_slice(), plaintext.as_bytes())?;
        Ok(AesData { nonce, salt, ciphertext })
    }

    /// Decrypts the envelope with the password. The outcome is a function
    /// of the envelope and the password alone: `KeyDerivation` exactly when
    /// the key-derivation function refuses the salt or the password;
    /// otherwise `Authentication` exactly when the tag fails — a wrong
    /// password, a corrupted ciphertext and a corrupted nonce or salt are
    /// indistinguishable here, deliberately; otherwise `Encoding` exactly
    /// when the recovered bytes are not text; otherwise that text, which is
    /// the one plaintext the envelope encrypts — never anything else.
    pub fn decrypt(&self, password: &str) -> (r: Result<String, TufaError>)
        requires
            self@.wf(),
        ensures
            r matches Ok(p) ==> decrypted_bytes(self@, password@) == Some(encode_utf8(p@)),
            r == Err::<String, TufaError>(TufaError::KeyDerivation) <==> argon2_key(
                password@,
                self@.salt,
            ) is None,
            argon2_key(password@, self@.salt) is Some ==> (match decrypted_bytes(
                self@,
                password@,
            ) {
                None => r == Err::<String, TufaError>(TufaError::Authentication),
                Some(b) => (if valid_utf8(b) {
                    r matches Ok(p) && p@ == decode_utf8(b)
                } else {
                    r == Err::<String, TufaError>(TufaError::Encoding)
                }),
            }),
    {
        let key = derive_key(password, self.salt.as_str())?;
        let plaintext_bytes = match aes256_decrypt(
            key.as_slice(),
            self.nonce.as_slice(),
            self.ciphertext.as_slice(),
        ) {
            Some(b) => b,
            None => {
                return Err(TufaError::Authentication);
            },
        };
        match string_from_utf8(plaintext_bytes) {
            Some(s) => {
                proof {
                    decode_utf8_encode_utf8(plaintext_bytes@);
                }
                Ok(s)
            },
            None => Err(TufaError::Encoding),
        }
    }

    /// The wire form: three fields joined by `'$'`, nonce and ciphertext in
    /// lowercase hex.
    pub fn serialize(&self) -> (r: String)
        ensures
            r@ == envelope_text(self@),
    {
        let mut r = hex_encode(self.nonce.as_slice());
        push_char(&mut r, '$');
        r.append(self.salt.as_str());
        push_char(&mut r, '$');
        let ct_hex = hex_encode(self.ciphertext.as_slice());
        r.append(ct_hex.as_str());
        proof {
            assert(r@ =~= envelope_text(self@));
        }
        r
    }
}

} // verus!
