//! One-time passcodes per RFC 4226 (HOTP) and RFC 6238 (TOTP).
//!
//! A [`Totp`] holds the raw shared secret together with the code length,
//! the reference time and the window length. Codes are computed with
//! HMAC-SHA1, dynamically truncated, reduced modulo a power of ten and
//! rendered as a zero-padded decimal string.

use vstd::prelude::*;
use crate::errors::TufaError;
use crate::strutil::{push_char, str_chars};
use hmac::Mac;

verus! {

/// A Unicode whitespace character, as stripped from base32 secrets.
pub open spec fn is_whitespace_char(c: char) -> bool {
    let u = c as u32;
    (9 <= u && u <= 13) || u == 32 || u == 0x85 || u == 0xa0 || u == 0x1680 || (0x2000 <= u && u
        <= 0x200a) || u == 0x2028 || u == 0x2029 || u == 0x202f || u == 0x205f || u == 0x3000
}

/// The character with an ASCII lowercase letter folded to uppercase.
pub open spec fn upper_char(c: char) -> char {
    if 97 <= c as u32 && c as u32 <= 122 {
        (((c as u32 - 32) as u8) as char)
    } else {
        c
    }
}

/// A base32 secret as handed to the decoder: whitespace dropped and ASCII
/// letters folded to uppercase.
pub open spec fn normalize_secret(s: Seq<char>) -> Seq<char>
    decreases s.len(),
{
    if s.len() == 0 {
        Seq::empty()
    } else {
        let rest = normalize_secret(s.drop_last());
        if is_whitespace_char(s.last()) {
            rest
        } else {
            rest.push(upper_char(s.last()))
        }
    }
}

/// What decoding unpadded RFC 4648 base32 yields for a normalized secret,
/// or nothing when some character is outside the alphabet.
pub uninterp spec fn base32_decode(s: Seq<char>) -> Option<Seq<u8>>;

/// The 20-byte MAC that HMAC-SHA1 computes from a key and a message.
pub uninterp spec fn hmac_sha1(key: Seq<u8>, message: Seq<u8>) -> Seq<u8>;

/// Ten to the `n`-th power.
pub open spec fn pow10(n: nat) -> nat
    decreases n,
{
    if n == 0 {
        1
    } else {
        10 * pow10((n - 1) as nat)
    }
}

proof fn lemma_pow10_mono(a: nat, b: nat)
    requires
        a <= b,
    ensures
        pow10(a) <= pow10(b),
    decreases b,
{
    if a < b {
        lemma_pow10_mono(a, (b - 1) as nat);
    }
}

/// The big-endian bytes of a 64-bit counter, most significant first.
pub open spec fn be64_bytes(x: u64) -> Seq<u8> {
    Seq::new(8, |i: int| (((x >> (((7 - i) * 8) as u64)) & 0xff) as u8))
}

/// A 32-bit value read from four big-endian bytes.
pub open spec fn be_u32(b: Seq<u8>) -> u32
    recommends
        b.len() == 4,
{
    ((b[0] as u32) << 24) | ((b[1] as u32) << 16) | ((b[2] as u32) << 8) | (b[3] as u32)
}

/// RFC 4226 dynamic truncation of a 20-byte MAC: the low nibble of the last
/// byte picks the offset of four bytes, read big-endian with the sign bit
/// masked off.
pub open spec fn truncated_of(mac: Seq<u8>) -> u32
    recommends
        mac.len() == 20,
{
    let offset = (mac[19] & 0x0f) as int;
    be_u32(mac.subrange(offset, offset + 4)) & 0x7fffffff
}

/// The decimal digit character for a value below ten.
pub open spec fn dec_digit_char(v: nat) -> char
    recommends
        v < 10,
{
    (((v + 48) as u8) as char)
}

/// The last `digits` decimal digits of `value`, most significant first,
/// zero-padded on the left.
pub open spec fn code_digits(value: nat, digits: nat) -> Seq<char>
    decreases digits,
{
    if digits == 0 {
        Seq::empty()
    } else {
        code_digits(value / 10, (digits - 1) as nat).push(dec_digit_char(value % 10))
    }
}

/// The HOTP code: the truncated MAC reduced modulo ten to the `digits`,
/// rendered as exactly `digits` decimal characters.
pub open spec fn hotp_code(key: Seq<u8>, counter_bytes: Seq<u8>, digits: u32) -> Seq<char> {
    code_digits((truncated_of(hmac_sha1(key, counter_bytes)) as nat) % pow10(digits as nat), digits as nat)
}

/// The number of whole windows between the reference time and `at_time`.
pub open spec fn totp_counter(reference_time: u64, window: u64, at_time: u64) -> u64
    recommends
        window >= 1,
        at_time >= reference_time,
{
    (((at_time - reference_time) as int / (window as int)) as u64)
}

/// The TOTP code: the HOTP code of the counter's eight big-endian bytes.
pub open spec fn totp_code(secret: Seq<u8>, digits: u32, counter: u64) -> Seq<char> {
    hotp_code(secret, be64_bytes(counter), digits)
}

/// Relies on base32::decode with the unpadded RFC 4648 alphabet:
/// deterministic in the input string.
#[verifier::external_body]
fn base32_decode_str(s: &str) -> (r: Option<Vec<u8>>)
    ensures
        r is Some <==> base32_decode(s@) is Some,
        r matches Some(v) ==> base32_decode(s@) == Some(v@),
{
    base32::decode(base32::Alphabet::Rfc4648 { padding: false }, s)
}

/// Relies on hmac::Hmac over sha1::Sha1: a deterministic 20-byte MAC, with
/// every key length accepted.
#[verifier::external_body]
fn hmac_sha1_bytes(key: &[u8], message: &[u8]) -> (r: Vec<u8>)
    ensures
        r@ == hmac_sha1(key@, message@),
        r@.len() == 20,
{
    let mut mac = <hmac::Hmac<sha1::Sha1> as hmac::Mac>::new_from_slice(key).unwrap();
    mac.update(message);
    mac.finalize().into_bytes().to_vec()
}

/// Relies on std's SystemTime: the seconds since the Unix epoch, when the
/// clock can give them.
#[verifier::external_body]
fn unix_time_secs() -> (r: Option<u64>) {
    match std::time::SystemTime::now().duration_since(std::time::UNIX_EPOCH) {
        Ok(d) => Some(d.as_secs()),
        Err(_) => None,
    }
}

/// Drops whitespace and folds ASCII letters to uppercase.
fn normalize(s: &str) -> (r: String)
    ensures
        r@ == normalize_secret(s@),
{
    let chars = str_chars(s);
    let n: usize = chars.len();
    let mut r = String::new();
    let mut i: usize = 0;
    while i < n
        invariant
            i <= n,
            n == chars@.len(),
            chars@ == s@,
            r@ == normalize_secret(s@.take(i as int)),
        decreases n - i,
    {
        let c = chars[i];
        let u = c as u32;
        let ws = (9 <= u && u <= 13) || u == 32 || u == 0x85 || u == 0xa0 || u == 0x1680 || (0x2000
            <= u && u <= 0x200a) || u == 0x2028 || u == 0x2029 || u == 0x202f || u == 0x205f || u
            == 0x3000;
        if !ws {
            if 97 <= u && u <= 122 {
                push_char(&mut r, ((u - 32) as u8) as char);
            } else {
                push_char(&mut r, c);
            }
        }
        proof {
            assert(s@.take(i + 1 as int).drop_last() =~= s@.take(i as int));
            assert(s@.take(i + 1 as int).last() == s@[i as int]);
        }
        i = i + 1;
    }
    proof {
        assert(s@.take(n as int) =~= s@);
    }
    r
}

fn pow10_exec(n: u32) -> (r: u32)
    requires
        n <= 9,
    ensures
        r == pow10(n as nat),
        r >= 1,
{
    let mut r: u32 = 1;
    let mut i: u32 = 0;
    while i < n
        invariant
            i <= n <= 9,
            r == pow10(i as nat),
        decreases n - i,
    {
        proof {
            lemma_pow10_mono(i as nat, 8);
            reveal_with_fuel(pow10, 10);
            assert(pow10(8) == 100000000);
        }
        r = r * 10;
        i = i + 1;
    }
    proof {
        lemma_pow10_mono(0, n as nat);
    }
    r
}

fn u64_to_be_bytes(x: u64) -> (r: Vec<u8>)
    ensures
        r@ == be64_bytes(x),
{
    let mut r: Vec<u8> = Vec::new();
    r.push(((x >> 56u64) & 0xff) as u8);
    r.push(((x >> 48u64) & 0xff) as u8);
    r.push(((x >> 40u64) & 0xff) as u8);
    r.push(((x >> 32u64) & 0xff) as u8);
    r.push(((x >> 24u64) & 0xff) as u8);
    r.push(((x >> 16u64) & 0xff) as u8);
    r.push(((x >> 8u64) & 0xff) as u8);
    r.push((x & 0xff) as u8);
    proof {
        assert((x >> 0u64) == x) by (bit_vector);
        assert(r@ =~= be64_bytes(x));
    }
    r
}

fn dynamic_truncate(mac: &Vec<u8>) -> (r: u32)
    requires
        mac@.len() == 20,
    ensures
        r == truncated_of(mac@),
{
    let b19 = mac[19];
    proof {
        assert(b19 & 0x0f < 16) by (bit_vector);
    }
    let offset = (b19 & 0x0f) as usize;
    let b0 = mac[offset];
    let b1 = mac[offset + 1];
    let b2 = mac[offset + 2];
    let b3 = mac[offset + 3];
    let v = ((b0 as u32) << 24u32) | ((b1 as u32) << 16u32) | ((b2 as u32) << 8u32) | (b3 as u32);
    proof {
        let off = (mac@[19] & 0x0f) as int;
        let sub = mac@.subrange(off, off + 4);
        assert(sub[0] == mac@[off] && sub[1] == mac@[off + 1] && sub[2] == mac@[off + 2] && sub[3]
            == mac@[off + 3]);
    }
    v & 0x7fffffff
}

/// The zero-padded decimal rendering of `value`, exactly `digits`
/// characters long: its last `digits` decimal digits, e.g. a value of 82
/// with six digits renders as `"000082"`.
pub fn format_code(value: u32, digits: u32) -> (r: String)
    requires
        digits <= 9,
    ensures
        r@ == code_digits(value as nat, digits as nat),
        r@.len() == digits,
    decreases digits,
{
    if digits == 0 {
        String::new()
    } else {
        let mut r = format_code(value / 10, digits - 1);
        push_char(&mut r, ((value % 10) as u8 + 48) as char);
        r
    }
}

/// A time-based one-time-passcode generator: a raw shared secret plus the
/// shape of the codes it emits.
#[derive(Debug)]
pub struct Totp {
    /// The shared secret, as raw bytes.
    pub secret: Vec<u8>,
    /// Decimal digits in an emitted code.
    pub max_digits: u32,
    /// Epoch offset in seconds that counters are measured from.
    pub reference_time: u64,
    /// Counter step length in seconds.
    pub window: u64,
}

impl Totp {
    /// What code generation relies on: at least one digit — and at most
    /// nine, the most whose power of ten fits a 32-bit truncated value —
    /// and a positive window.
    pub open spec fn wf(&self) -> bool {
        1 <= self.max_digits <= 9 && self.window >= 1
    }

    /// A generator over raw secret bytes, as the HOTP test vectors use them.
    pub fn from_bytes(secret: Vec<u8>, max_digits: u32, reference_time: u64, window: u64) -> (r:
        Totp)
        requires
            1 <= max_digits <= 9,
            window >= 1,
        ensures
            r.secret@ == secret@,
            r.max_digits == max_digits,
            r.reference_time == reference_time,
            r.window == window,
            r.wf(),
    {
        Totp { secret, max_digits, reference_time, window }
    }

    /// A generator from a base32 secret: whitespace is dropped and case is
    /// folded before decoding. Fails exactly when the normalized text is
    /// not valid unpadded base32.
    pub fn new(secret: &str, max_digits: u32, reference_time: u64, window: u64) -> (r: Result<
        Totp,
        TufaError,
    >)
        requires
            1 <= max_digits <= 9,
            window >= 1,
        ensures
            r is Ok <==> base32_decode(normalize_secret(secret@)) is Some,
            r matches Ok(t) ==> Some(t.secret@) == base32_decode(normalize_secret(secret@))
                && t.max_digits == max_digits && t.reference_time == reference_time && t.window
                == window && t.wf(),
            r matches Err(e) ==> e == TufaError::InvalidSecretEncoding,
    {
        let normalized = normalize(secret);
        match base32_decode_str(normalized.as_str()) {
            Some(secret_bytes) => Ok(
                Totp { secret: secret_bytes, max_digits, reference_time, window },
            ),
            None => Err(TufaError::InvalidSecretEncoding),
        }
    }

    /// The common generator: six digits, counted from the epoch, in
    /// 30-second windows.
    pub fn simple(secret: &str) -> (r: Result<Totp, TufaError>)
        ensures
            r is Ok <==> base32_decode(normalize_secret(secret@)) is Some,
            r matches Ok(t) ==> Some(t.secret@) == base32_decode(normalize_secret(secret@))
                && t.max_digits == 6 && t.reference_time == 0 && t.window == 30 && t.wf(),
            r matches Err(e) ==> e == TufaError::InvalidSecretEncoding,
    {
        Totp::new(secret, 6, 0, 30)
    }

    /// The code for one counter value, per RFC 4226: HMAC-SHA1 over the
    /// counter bytes, dynamic truncation, then the last `max_digits`
    /// decimal digits, zero-padded.
    pub fn hotp(&self, counter: &[u8]) -> (r: Result<String, TufaError>)
        requires
            self.wf(),
        ensures
            r is Ok,
            r matches Ok(code) ==> code@ == hotp_code(self.secret@, counter@, self.max_digits)
                && code@.len() == self.max_digits,
    {
        let mac = hmac_sha1_bytes(self.secret.as_slice(), counter);
        let truncated = dynamic_truncate(&mac);
        let modulus = pow10_exec(self.max_digits);
        Ok(format_code(truncated % modulus, self.max_digits))
    }

    /// The code for the given time, per RFC 6238: the counter is the number
    /// of whole windows between the reference time and `at_time`. A time
    /// before the reference time is not yet valid.
    pub fn generate(&self, at_time: u64) -> (r: Result<String, TufaError>)
        requires
            self.wf(),
        ensures
            at_time >= self.reference_time ==> (r matches Ok(code) && code@ == totp_code(
                self.secret@,
                self.max_digits,
                totp_counter(self.reference_time, self.window, at_time),
            ) && code@.len() == self.max_digits),
            at_time < self.reference_time ==> r == Err::<String, TufaError>(TufaError::Clock),
    {
        if at_time < self.reference_time {
            return Err(TufaError::Clock);
        }
        let counter: u64 = (at_time - self.reference_time) / self.window;
        let counter_bytes = u64_to_be_bytes(counter);
        self.hotp(counter_bytes.as_slice())
    }

    /// The code for the present moment, read from the system clock.
    pub fn generate_now(&self) -> (r: Result<String, TufaError>)
        requires
            self.wf(),
        ensures
            r matches Ok(code) ==> exists|t: u64|
                t >= self.reference_time && code@ == totp_code(
                    self.secret@,
                    self.max_digits,
                    #[trigger] totp_counter(self.reference_time, self.window, t),
                ),
            r matches Err(e) ==> e == TufaError::Clock,
    {
        let now = match unix_time_secs() {
            Some(t) => t,
            None => {
                return Err(TufaError::Clock);
            },
        };
        let r = self.generate(now);
        proof {
            if r is Ok {
                assert(now >= self.reference_time && r->Ok_0@ == totp_code(
                    self.secret@,
                    self.max_digits,
                    totp_counter(self.reference_time, self.window, now),
                ));
            }
        }
        r
    }
}

} // verus!
