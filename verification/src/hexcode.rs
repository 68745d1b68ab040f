//! Hexadecimal encoding and decoding of byte strings, with exact
//! specifications. Encoding emits lowercase digits; decoding accepts both
//! cases and fails on odd length or any non-hex character.

use vstd::prelude::*;
use crate::strutil::push_char;

verus! {

/// The lowercase hex digit standing for a value below 16.
pub open spec fn nibble_char(v: u8) -> char
    recommends
        v < 16,
{
    if v < 10 {
        (((v + 48) as u8) as char)
    } else {
        (((v + 87) as u8) as char)
    }
}

/// Both characters of a byte's hex form: high nibble first.
pub open spec fn hex_of(bytes: Seq<u8>) -> Seq<char> {
    Seq::new(
        bytes.len() * 2,
        |i: int|
            if i % 2 == 0 {
                nibble_char(bytes[i / 2] >> 4)
            } else {
                nibble_char(bytes[i / 2] & 0x0f)
            },
    )
}

/// A decimal digit or a hex letter of either case.
pub open spec fn is_hex_digit(c: char) -> bool {
    (48 <= c as u32 && c as u32 <= 57) || (97 <= c as u32 && c as u32 <= 102) || (65 <= c as u32
        && c as u32 <= 70)
}

/// The value of one hex digit, accepting either case.
pub open spec fn hex_val(c: char) -> u8
    recommends
        is_hex_digit(c),
{
    if 48 <= c as u32 && c as u32 <= 57 {
        ((c as u32 - 48) as u8)
    } else if 97 <= c as u32 && c as u32 <= 102 {
        ((c as u32 - 87) as u8)
    } else {
        ((c as u32 - 55) as u8)
    }
}

pub open spec fn all_hex_digits(s: Seq<char>) -> bool {
    forall|i: int| 0 <= i < s.len() ==> is_hex_digit(#[trigger] s[i])
}

/// The byte described by the hex digit pair at position `i` of `s`.
pub open spec fn hex_byte(s: Seq<char>, i: int) -> u8 {
    ((hex_val(s[2 * i]) * 16 + hex_val(s[2 * i + 1])) as u8)
}

/// What decoding a hex string yields: the bytes, or nothing when the length
/// is odd or some character is not a hex digit.
pub open spec fn hex_decode_spec(s: Seq<char>) -> Option<Seq<u8>> {
    if s.len() % 2 == 0 && all_hex_digits(s) {
        Some(Seq::new(s.len() / 2, |i: int| hex_byte(s, i)))
    } else {
        None
    }
}

/// Hex digits of a nibble decode back to it, and are never `'$'`.
pub proof fn lemma_nibble_char(v: u8)
    requires
        v < 16,
    ensures
        is_hex_digit(nibble_char(v)),
        hex_val(nibble_char(v)) == v,
        nibble_char(v) != '$',
{
}

/// Decoding inverts encoding: the round trip gives the bytes back.
pub proof fn lemma_hex_round_trip(bytes: Seq<u8>)
    ensures
        hex_decode_spec(hex_of(bytes)) == Some(bytes),
{
    let s = hex_of(bytes);
    assert forall|i: int| 0 <= i < s.len() implies is_hex_digit(#[trigger] s[i]) by {
        let b = bytes[i / 2];
        assert(b >> 4 < 16 && b & 0x0f < 16) by (bit_vector);
        if i % 2 == 0 {
            lemma_nibble_char(b >> 4);
        } else {
            lemma_nibble_char(b & 0x0f);
        }
    }
    let d = hex_decode_spec(s)->Some_0;
    assert forall|i: int| 0 <= i < bytes.len() implies d[i] == bytes[i] by {
        let b = bytes[i];
        assert(b >> 4 < 16 && b & 0x0f < 16) by (bit_vector);
        lemma_nibble_char(b >> 4);
        lemma_nibble_char(b & 0x0f);
        assert((b >> 4) * 16 + (b & 0x0f) == b) by (bit_vector);
    }
    assert(d =~= bytes);
}

/// No hex digit is the envelope delimiter.
pub proof fn lemma_hex_no_dollar(bytes: Seq<u8>)
    ensures
        forall|i: int| 0 <= i < hex_of(bytes).len() ==> #[trigger] hex_of(bytes)[i] != '$',
{
    assert forall|i: int| 0 <= i < hex_of(bytes).len() implies #[trigger] hex_of(bytes)[i]
        != '$' by {
        let b = bytes[i / 2];
        assert(b >> 4 < 16 && b & 0x0f < 16) by (bit_vector);
        if i % 2 == 0 {
            lemma_nibble_char(b >> 4);
        } else {
            lemma_nibble_char(b & 0x0f);
        }
    }
}

fn nibble_to_char(v: u8) -> (c: char)
    requires
        v < 16,
    ensures
        c == nibble_char(v),
{
    if v < 10 {
        (v + 48) as char
    } else {
        (v + 87) as char
    }
}

/// The lowercase hex form of the bytes, two digits per byte.
pub fn hex_encode(bytes: &[u8]) -> (r: String)
    ensures
        r@ == hex_of(bytes@),
{
    let n: usize = bytes.len();
    let mut r = String::new();
    let mut i: usize = 0;
    while i < n
        invariant
            i <= n,
            n == bytes@.len(),
            r@ == hex_of(bytes@.take(i as int)),
        decreases n - i,
    {
        let b = bytes[i];
        assert(b >> 4 < 16 && b & 0x0f < 16) by (bit_vector);
        let hi = nibble_to_char(b >> 4);
        let lo = nibble_to_char(b & 0x0f);
        push_char(&mut r, hi);
        push_char(&mut r, lo);
        proof {
            let t0 = bytes@.take(i as int);
            let t1 = bytes@.take(i + 1 as int);
            assert forall|j: int| 0 <= j < t1.len() * 2 implies hex_of(t1)[j] == hex_of(t0).push(
                nibble_char(b >> 4),
            ).push(nibble_char(b & 0x0f))[j] by {
                assert(t1[j / 2] == if j / 2 < i { t0[j / 2] } else { b });
            }
            assert(hex_of(t1) =~= hex_of(t0).push(nibble_char(b >> 4)).push(
                nibble_char(b & 0x0f),
            ));
        }
        i = i + 1;
    }
    proof {
        assert(bytes@.take(n as int) =~= bytes@);
    }
    r
}

fn char_to_nibble(c: char) -> (r: Option<u8>)
    ensures
        r is Some <==> is_hex_digit(c),
        r matches Some(v) ==> v == hex_val(c) && v < 16,
{
    let u = c as u32;
    if 48 <= u && u <= 57 {
        Some((u - 48) as u8)
    } else if 97 <= u && u <= 102 {
        Some((u - 87) as u8)
    } else if 65 <= u && u <= 70 {
        Some((u - 55) as u8)
    } else {
        None
    }
}

/// The bytes a hex string stands for, or nothing when it is not hex.
pub fn hex_decode(s: &[char]) -> (r: Option<Vec<u8>>)
    ensures
        r is Some <==> hex_decode_spec(s@) is Some,
        r matches Some(v) ==> Some(v@) == hex_decode_spec(s@),
{
    let n: usize = s.len();
    if n % 2 != 0 {
        return None;
    }
    let mut out: Vec<u8> = Vec::new();
    let mut i: usize = 0;
    while i < n
        invariant
            i <= n,
            i % 2 == 0,
            n % 2 == 0,
            n == s@.len(),
            forall|j: int| 0 <= j < i ==> is_hex_digit(#[trigger] s@[j]),
            out@.len() == i / 2,
            forall|j: int| 0 <= j < i / 2 ==> out@[j] == hex_byte(s@, j),
        decreases n - i,
    {
        let v1 = match char_to_nibble(s[i]) {
            Some(v) => v,
            None => {
                return None;
            },
        };
        let v2 = match char_to_nibble(s[i + 1]) {
            Some(v) => v,
            None => {
                return None;
            },
        };
        out.push(v1 * 16 + v2);
        i = i + 2;
    }
    proof {
        let d = hex_decode_spec(s@)->Some_0;
        assert(out@ =~= d);
    }
    Some(out)
}

} // verus!
