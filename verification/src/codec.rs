//! URL-safe base64 without padding: the textual form of identifiers and of
//! session-cookie payloads.
//!
//! The alphabet is `A-Z a-z 0-9 - _`. An encoding of `n` bytes is
//! `4*(n/3)` characters plus 2 or 3 for a trailing group of 1 or 2 bytes;
//! no `=` padding is emitted or accepted. Decoding is canonical: the unused
//! low bits of a trailing group must be zero.

use vstd::prelude::*;

verus! {

/// Why a piece of text failed to decode.
#[derive(Debug, Clone, Copy, PartialEq, Eq, Structural)]
pub enum DecodeError {
    /// A character outside the alphabet, or nonzero unused bits in the
    /// trailing group.
    Malformed,
    /// A character count no unpadded encoding can have, or (for fixed-width
    /// callers) a decoded byte count other than the expected one.
    InvalidLength,
}

/// The characters of the URL-safe alphabet, by code point.
pub open spec fn is_b64_char(c: char) -> bool {
    let u = c as u32;
    (65 <= u && u <= 90)  // A-Z
    || (97 <= u && u <= 122)  // a-z
    || (48 <= u && u <= 57)  // 0-9
    || u == 45  // -
    || u == 95  // _
}

/// The 6-bit value a character of the alphabet stands for.
pub open spec fn b64_val(c: char) -> u8 {
    let u = c as u32;
    if 65 <= u && u <= 90 {
        (u - 65) as u8
    } else if 97 <= u && u <= 122 {
        (u - 71) as u8
    } else if 48 <= u && u <= 57 {
        (u + 4) as u8
    } else if u == 45 {
        62
    } else {
        63
    }
}

/// The code point of the character standing for a 6-bit value.
pub open spec fn b64_ascii(v: u8) -> u8 {
    if v < 26 {
        (65 + v) as u8
    } else if v < 52 {
        (71 + v) as u8
    } else if v < 62 {
        (v - 4) as u8
    } else if v == 62 {
        45
    } else {
        95
    }
}

/// The character standing for a 6-bit value.
pub open spec fn b64_char(v: u8) -> char {
    b64_ascii(v) as char
}

/// How many characters the encoding of `n` bytes has.
pub open spec fn encoded_len(n: nat) -> nat {
    4 * (n / 3) + if n % 3 == 0 {
        0
    } else {
        n % 3 + 1
    }
}

/// How many bytes a text of `n` characters decodes to (`n % 4 != 1`).
pub open spec fn decoded_len(n: nat) -> nat {
    3 * (n / 4) + if n % 4 == 0 {
        0
    } else {
        (n % 4 - 1) as nat
    }
}

/// The `i`-th 6-bit group of the bit string formed by `b`, high bits first,
/// with zero bits past the end.
pub open spec fn sextet_at(b: Seq<u8>, i: int) -> u8
    recommends
        0 <= i < encoded_len(b.len()),
{
    let k = 3 * (i / 4);
    if i % 4 == 0 {
        b[k] >> 2
    } else if i % 4 == 1 {
        if k + 1 < b.len() {
            ((b[k] & 3) << 4) | (b[k + 1] >> 4)
        } else {
            (b[k] & 3) << 4
        }
    } else if i % 4 == 2 {
        if k + 2 < b.len() {
            ((b[k + 1] & 15) << 2) | (b[k + 2] >> 6)
        } else {
            (b[k + 1] & 15) << 2
        }
    } else {
        b[k + 2] & 63
    }
}

/// The unpadded URL-safe base64 encoding of a byte sequence.
pub open spec fn encode_b64(b: Seq<u8>) -> Seq<char> {
    Seq::new(encoded_len(b.len()), |i: int| b64_char(sextet_at(b, i)))
}

/// The `j`-th byte reassembled from the 6-bit values of a text.
pub open spec fn byte_at(s: Seq<char>, j: int) -> u8
    recommends
        0 <= j < decoded_len(s.len()),
{
    let g = j / 3;
    if j % 3 == 0 {
        (b64_val(s[4 * g]) << 2) | (b64_val(s[4 * g + 1]) >> 4)
    } else if j % 3 == 1 {
        ((b64_val(s[4 * g + 1]) & 15) << 4) | (b64_val(s[4 * g + 2]) >> 2)
    } else {
        ((b64_val(s[4 * g + 2]) & 3) << 6) | b64_val(s[4 * g + 3])
    }
}

/// The bytes a valid text decodes to.
pub open spec fn decode_b64(s: Seq<char>) -> Seq<u8>
    recommends
        valid_b64(s),
{
    Seq::new(decoded_len(s.len()), |j: int| byte_at(s, j))
}

/// Every character is drawn from the alphabet.
pub open spec fn all_b64_chars(s: Seq<char>) -> bool {
    forall|i: int| 0 <= i < s.len() ==> is_b64_char(#[trigger] s[i])
}

/// The bits of a trailing group that encode nothing are zero.
pub open spec fn padding_bits_zero(s: Seq<char>) -> bool {
    if s.len() % 4 == 2 {
        b64_val(s[s.len() - 1]) & 15 == 0
    } else if s.len() % 4 == 3 {
        b64_val(s[s.len() - 1]) & 3 == 0
    } else {
        true
    }
}

/// Texts that decode: alphabet characters only, a possible character count,
/// zero padding bits.
pub open spec fn valid_b64(s: Seq<char>) -> bool {
    &&& all_b64_chars(s)
    &&& s.len() % 4 != 1
    &&& padding_bits_zero(s)
}

/// What `decode` returns on a given text, checks in order: alphabet first,
/// then the character count, then the padding bits.
pub open spec fn decode_result(s: Seq<char>) -> Result<Seq<u8>, DecodeError> {
    if !all_b64_chars(s) {
        Err(DecodeError::Malformed)
    } else if s.len() % 4 == 1 {
        Err(DecodeError::InvalidLength)
    } else if !padding_bits_zero(s) {
        Err(DecodeError::Malformed)
    } else {
        Ok(decode_b64(s))
    }
}

/// The alphabet character for a 6-bit value, as its ASCII byte.
fn b64_ascii_exec(v: u8) -> (r: u8)
    requires
        v < 64,
    ensures
        r == b64_ascii(v),
{
    if v < 26 {
        65 + v
    } else if v < 52 {
        71 + v
    } else if v < 62 {
        v - 4
    } else if v == 62 {
        45
    } else {
        95
    }
}

/// The 6-bit value of a character, or `None` outside the alphabet.
fn b64_val_exec(c: char) -> (r: Option<u8>)
    ensures
        r is Some <==> is_b64_char(c),
        r is Some ==> r->0 == b64_val(c) && r->0 < 64,
{
    let u = c as u32;
    if 65 <= u && u <= 90 {
        Some((u - 65) as u8)
    } else if 97 <= u && u <= 122 {
        Some((u - 71) as u8)
    } else if 48 <= u && u <= 57 {
        Some((u + 4) as u8)
    } else if u == 45 {
        Some(62)
    } else if u == 95 {
        Some(63)
    } else {
        None
    }
}

/// Relies on `String::from_utf8`: a sequence of ASCII bytes is valid UTF-8
/// and decodes to the characters with the same code points.
#[verifier::external_body]
fn ascii_to_string(v: Vec<u8>) -> (r: String)
    requires
        forall|i: int| 0 <= i < v@.len() ==> v@[i] < 128,
    ensures
        r@ == v@.map_values(|b: u8| b as char),
{
    String::from_utf8(v).unwrap()
}

/// Encode bytes as unpadded URL-safe base64.
pub fn encode(bytes: &[u8]) -> (r: String)
    ensures
        r@ == encode_b64(bytes@),
{
    let n = bytes.len();
    let mut out: Vec<u8> = Vec::new();
    let mut i: usize = 0;
    while n - i >= 3
        invariant
            i <= n,
            i % 3 == 0,
            n == bytes@.len(),
            out@.len() == 4 * (i / 3),
            forall|m: int|
                0 <= m < out@.len() ==> #[trigger] out@[m] == b64_ascii(sextet_at(bytes@, m)),
        decreases n - i,
    {
        let b0 = bytes[i];
        let b1 = bytes[i + 1];
        let b2 = bytes[i + 2];
        let ghost g = i as int / 3;
        proof {
            assert(4 * g % 4 == 0 && (4 * g + 1) % 4 == 1 && (4 * g + 2) % 4 == 2 && (4 * g + 3)
                % 4 == 3);
            assert(4 * g / 4 == g && (4 * g + 1) / 4 == g && (4 * g + 2) / 4 == g && (4 * g + 3) / 4
                == g);
            assert(3 * g == i);
            lemma_sextet_forms_bounded(b0, b1, b2);
        }
        out.push(b64_ascii_exec(b0 >> 2));
        out.push(b64_ascii_exec(((b0 & 3) << 4) | (b1 >> 4)));
        out.push(b64_ascii_exec(((b1 & 15) << 2) | (b2 >> 6)));
        out.push(b64_ascii_exec(b2 & 63));
        i += 3;
    }
    let ghost g = i as int / 3;
    proof {
        assert(4 * g % 4 == 0 && (4 * g + 1) % 4 == 1 && (4 * g + 2) % 4 == 2);
        assert(4 * g / 4 == g && (4 * g + 1) / 4 == g && (4 * g + 2) / 4 == g);
        assert(3 * g == i);
        assert(n as int / 3 == g && n as int % 3 == n - i);
    }
    if n - i == 1 {
        let b0 = bytes[i];
        proof {
            lemma_sextet_forms_bounded(b0, 0, 0);
        }
        out.push(b64_ascii_exec(b0 >> 2));
        out.push(b64_ascii_exec((b0 & 3) << 4));
    } else if n - i == 2 {
        let b0 = bytes[i];
        let b1 = bytes[i + 1];
        proof {
            lemma_sextet_forms_bounded(b0, b1, 0);
        }
        out.push(b64_ascii_exec(b0 >> 2));
        out.push(b64_ascii_exec(((b0 & 3) << 4) | (b1 >> 4)));
        out.push(b64_ascii_exec((b1 & 15) << 2));
    }
    proof {
        assert(out@.len() == encoded_len(bytes@.len()));
        assert forall|m: int| 0 <= m < out@.len() implies out@[m] < 128 by {
            lemma_b64_ascii_range(sextet_at(bytes@, m));
        }
    }
    let r = ascii_to_string(out);
    proof {
        assert(r@ =~= encode_b64(bytes@));
    }
    r
}

/// Read off the 6-bit value of every character, or report the first
/// character outside the alphabet.
fn scan_vals(s: &str) -> (r: Result<Vec<u8>, DecodeError>)
    ensures
        match r {
            Ok(v) => {
                &&& all_b64_chars(s@)
                &&& v@.len() == s@.len()
                &&& forall|j: int|
                    0 <= j < s@.len() ==> #[trigger] v@[j] == b64_val(s@[j]) && v@[j] < 64
            },
            Err(e) => e == DecodeError::Malformed && !all_b64_chars(s@),
        },
{
    let n = s.unicode_len();
    let mut vals: Vec<u8> = Vec::new();
    let mut i: usize = 0;
    while i < n
        invariant
            i <= n,
            n == s@.len(),
            vals@.len() == i,
            forall|j: int| 0 <= j < i ==> is_b64_char(#[trigger] s@[j]),
            forall|j: int| 0 <= j < i ==> #[trigger] vals@[j] == b64_val(s@[j]) && vals@[j] < 64,
        decreases n - i,
    {
        let c = s.get_char(i);
        match b64_val_exec(c) {
            Some(v) => {
                vals.push(v);
            },
            None => {
                return Err(DecodeError::Malformed);
            },
        }
        i += 1;
    }
    Ok(vals)
}

/// Decode unpadded URL-safe base64 text into bytes.
pub fn decode(s: &str) -> (r: Result<Vec<u8>, DecodeError>)
    ensures
        match r {
            Ok(v) => decode_result(s@) == Ok::<Seq<u8>, DecodeError>(v@),
            Err(e) => decode_result(s@) == Err::<Seq<u8>, DecodeError>(e),
        },
{
    let vals = match scan_vals(s) {
        Ok(v) => v,
        Err(e) => {
            return Err(e);
        },
    };
    let n = vals.len();
    proof {
        assert(n == s@.len());
    }
    if n % 4 == 1 {
        return Err(DecodeError::InvalidLength);
    }
    if n % 4 == 2 && vals[n - 1] & 15 != 0 {
        return Err(DecodeError::Malformed);
    }
    if n % 4 == 3 && vals[n - 1] & 3 != 0 {
        return Err(DecodeError::Malformed);
    }
    let mut out: Vec<u8> = Vec::new();
    let mut i: usize = 0;
    while n - i >= 4
        invariant
            i <= n,
            i % 4 == 0,
            n == s@.len(),
            n % 4 != 1,
            vals@.len() == n,
            all_b64_chars(s@),
            forall|j: int| 0 <= j < n ==> #[trigger] vals@[j] == b64_val(s@[j]) && vals@[j] < 64,
            out@.len() == 3 * (i / 4),
            forall|m: int| 0 <= m < out@.len() ==> #[trigger] out@[m] == byte_at(s@, m),
        decreases n - i,
    {
        let v0 = vals[i];
        let v1 = vals[i + 1];
        let v2 = vals[i + 2];
        let v3 = vals[i + 3];
        let ghost g = i as int / 4;
        proof {
            assert(3 * g % 3 == 0 && (3 * g + 1) % 3 == 1 && (3 * g + 2) % 3 == 2);
            assert(3 * g / 3 == g && (3 * g + 1) / 3 == g && (3 * g + 2) / 3 == g);
            assert(4 * g == i);
        }
        out.push((v0 << 2) | (v1 >> 4));
        out.push(((v1 & 15) << 4) | (v2 >> 2));
        out.push(((v2 & 3) << 6) | v3);
        i += 4;
    }
    let ghost g = i as int / 4;
    proof {
        assert(3 * g % 3 == 0 && (3 * g + 1) % 3 == 1);
        assert(3 * g / 3 == g && (3 * g + 1) / 3 == g);
        assert(4 * g == i);
        assert(n as int / 4 == g && n as int % 4 == n - i);
    }
    if n - i == 2 {
        out.push((vals[i] << 2) | (vals[i + 1] >> 4));
    } else if n - i == 3 {
        out.push((vals[i] << 2) | (vals[i + 1] >> 4));
        out.push(((vals[i + 1] & 15) << 4) | (vals[i + 2] >> 2));
    }
    proof {
        assert(out@.len() == decoded_len(s@.len()));
        assert(out@ =~= decode_b64(s@));
    }
    Ok(out)
}

/// Every 6-bit group a byte triple can produce stays below 64.
proof fn lemma_sextet_forms_bounded(b0: u8, b1: u8, b2: u8)
    ensures
        b0 >> 2 < 64,
        ((b0 & 3) << 4) | (b1 >> 4) < 64,
        (b0 & 3) << 4 < 64,
        ((b1 & 15) << 2) | (b2 >> 6) < 64,
        (b1 & 15) << 2 < 64,
        b2 & 63 < 64,
{
    assert(b0 >> 2 < 64 && ((b0 & 3) << 4) | (b1 >> 4) < 64 && (b0 & 3) << 4 < 64 && ((b1 & 15)
        << 2) | (b2 >> 6) < 64 && (b1 & 15) << 2 < 64 && b2 & 63 < 64) by (bit_vector);
}

/// The alphabet lies in the ASCII range.
proof fn lemma_b64_ascii_range(v: u8)
    ensures
        b64_ascii(v) < 128,
{
}

/// Alphabet characters map to their 6-bit values and back.
pub proof fn lemma_b64_char_val(v: u8)
    requires
        v < 64,
    ensures
        is_b64_char(b64_char(v)),
        b64_val(b64_char(v)) == v,
{
    assert(b64_char(v) as u32 == b64_ascii(v));
}

/// Every 6-bit group is below 64, and the characters of an encoding are
/// alphabet characters carrying exactly the group values.
proof fn lemma_sextet_val(b: Seq<u8>, i: int)
    requires
        0 <= i,
    ensures
        sextet_at(b, i) < 64,
        i < encoded_len(b.len()) ==> is_b64_char(encode_b64(b)[i]) && b64_val(encode_b64(b)[i])
            == sextet_at(b, i),
{
    let k = 3 * (i / 4);
    lemma_sextet_forms_bounded(b[k], b[k + 1], b[k + 2]);
    if i < encoded_len(b.len()) {
        assert(encode_b64(b)[i] == b64_char(sextet_at(b, i)));
        lemma_b64_char_val(sextet_at(b, i));
    }
}

/// Reassembling a byte from its two neighbouring 6-bit groups gives the byte
/// back, in every alignment a group boundary can take.
proof fn lemma_bv_roundtrip(b0: u8, b1: u8, b2: u8)
    ensures
        ((b0 >> 2) << 2) | ((((b0 & 3) << 4) | (b1 >> 4)) >> 4) == b0,
        ((b0 >> 2) << 2) | (((b0 & 3) << 4) >> 4) == b0,
        (((((b0 & 3) << 4) | (b1 >> 4)) & 15) << 4) | ((((b1 & 15) << 2) | (b2 >> 6)) >> 2) == b1,
        (((((b0 & 3) << 4) | (b1 >> 4)) & 15) << 4) | (((b1 & 15) << 2) >> 2) == b1,
        (((((b1 & 15) << 2) | (b2 >> 6)) & 3) << 6) | (b2 & 63) == b2,
{
    assert(((b0 >> 2) << 2) | ((((b0 & 3) << 4) | (b1 >> 4)) >> 4) == b0 && ((b0 >> 2) << 2) | (((b0
        & 3) << 4) >> 4) == b0 && (((((b0 & 3) << 4) | (b1 >> 4)) & 15) << 4) | ((((b1 & 15) << 2)
        | (b2 >> 6)) >> 2) == b1 && (((((b0 & 3) << 4) | (b1 >> 4)) & 15) << 4) | (((b1 & 15) << 2)
        >> 2) == b1 && (((((b1 & 15) << 2) | (b2 >> 6)) & 3) << 6) | (b2 & 63) == b2)
        by (bit_vector);
}

/// The 6-bit groups a byte takes part in all lie inside the encoding.
proof fn lemma_group_in_range(n: int, j: int)
    requires
        0 <= j < n,
    ensures
        4 * (j / 3) + 1 < encoded_len(n as nat),
        j % 3 >= 1 ==> 4 * (j / 3) + 2 < encoded_len(n as nat),
        j % 3 == 2 ==> 4 * (j / 3) + 3 < encoded_len(n as nat),
{
    let g = j / 3;
    let r = j % 3;
    let p = n / 3;
    let q = n % 3;
    assert(j == 3 * g + r && n == 3 * p + q);
}

/// Byte `j` of a decoded encoding is byte `j` of the original.
proof fn lemma_byte_roundtrip(b: Seq<u8>, j: int)
    requires
        0 <= j < b.len(),
    ensures
        byte_at(encode_b64(b), j) == b[j],
{
    let n = b.len() as int;
    let e = encode_b64(b);
    let g = j / 3;
    let r = j % 3;
    assert(j == 3 * g + r);
    lemma_group_in_range(n, j);
    lemma_sextet_val(b, 4 * g);
    lemma_sextet_val(b, 4 * g + 1);
    lemma_sextet_val(b, 4 * g + 2);
    lemma_sextet_val(b, 4 * g + 3);
    assert(4 * g / 4 == g && (4 * g + 1) / 4 == g && (4 * g + 2) / 4 == g && (4 * g + 3) / 4 == g);
    assert(4 * g % 4 == 0 && (4 * g + 1) % 4 == 1 && (4 * g + 2) % 4 == 2 && (4 * g + 3) % 4 == 3);
    let b0 = b[3 * g];
    let b1 = b[3 * g + 1];
    let b2 = b[3 * g + 2];
    lemma_bv_roundtrip(b0, b1, b2);
}

/// Alphabet characters carry a 6-bit value and are recovered from it.
proof fn lemma_b64_val_char(c: char)
    requires
        is_b64_char(c),
    ensures
        b64_val(c) < 64,
        b64_char(b64_val(c)) == c,
{
    let u = c as u32;
    assert(b64_ascii(b64_val(c)) as u32 == u);
    vstd::utf8::char_u32_cast(c, u);
    assert((b64_ascii(b64_val(c)) as char) as u32 == u);
    vstd::utf8::char_u32_cast(b64_char(b64_val(c)), u);
}

/// Each 6-bit value is recovered whole from the byte pair it was packed
/// into, in every alignment, with the padding rules closing the tail cases.
proof fn lemma_bv_resextet(v0: u8, v1: u8, v2: u8, v3: u8)
    by (bit_vector)
    requires
        v0 < 64,
        v1 < 64,
        v2 < 64,
        v3 < 64,
    ensures
        ((v0 << 2) | (v1 >> 4)) >> 2 == v0,
        ((((v0 << 2) | (v1 >> 4)) & 3) << 4) | (((((v1 & 15) << 4) | (v2 >> 2))) >> 4) == v1,
        v1 & 15 == 0 ==> (((v0 << 2) | (v1 >> 4)) & 3) << 4 == v1,
        ((((((v1 & 15) << 4) | (v2 >> 2))) & 15) << 2) | ((((v2 & 3) << 6) | v3) >> 6) == v2,
        v2 & 3 == 0 ==> ((((v1 & 15) << 4) | (v2 >> 2)) & 15) << 2 == v2,
        (((v2 & 3) << 6) | v3) & 63 == v3,
{
}

/// Every character's 6-bit value lies below 64, in or out of the alphabet.
proof fn lemma_b64_val_bound(c: char)
    ensures
        b64_val(c) < 64,
{
}

/// The 6-bit group at position `i` of a valid text's decoded bytes is the
/// value of the text's character at `i`.
proof fn lemma_sextet_of_decoded(s: Seq<char>, i: int)
    requires
        valid_b64(s),
        0 <= i < s.len(),
    ensures
        sextet_at(decode_b64(s), i) == b64_val(s[i]),
{
    let n = s.len() as int;
    let d = decode_b64(s);
    let m = decoded_len(s.len()) as int;
    let g = i / 4;
    let t = i % 4;
    assert(i == 4 * g + t);
    assert((4 * g + t) / 4 == g && 3 * g / 3 == g && (3 * g + 1) / 3 == g && (3 * g + 2) / 3 == g);
    assert(3 * g % 3 == 0 && (3 * g + 1) % 3 == 1 && (3 * g + 2) % 3 == 2);
    let v0 = b64_val(s[4 * g]);
    let v1 = b64_val(s[4 * g + 1]);
    let v2 = b64_val(s[4 * g + 2]);
    let v3 = b64_val(s[4 * g + 3]);
    lemma_b64_val_bound(s[4 * g]);
    lemma_b64_val_bound(s[4 * g + 1]);
    lemma_b64_val_bound(s[4 * g + 2]);
    lemma_b64_val_bound(s[4 * g + 3]);
    lemma_bv_resextet(v0, v1, v2, v3);
    assert(n % 4 != 1 && n == 4 * (n / 4) + n % 4);
    if t == 0 {
        assert(d[3 * g] == byte_at(s, 3 * g));
    } else if t == 1 {
        assert(d[3 * g] == byte_at(s, 3 * g));
        if 3 * g + 1 < m {
            assert(d[3 * g + 1] == byte_at(s, 3 * g + 1));
        } else {
            assert(n % 4 == 2 && g == n / 4 && m == 3 * g + 1);
            assert(i == n - 1);
            assert(v1 & 15 == 0);
        }
    } else if t == 2 {
        assert(d[3 * g + 1] == byte_at(s, 3 * g + 1));
        if 3 * g + 2 < m {
            assert(d[3 * g + 2] == byte_at(s, 3 * g + 2));
        } else {
            assert(n % 4 == 3 && g == n / 4 && m == 3 * g + 2);
            assert(i == n - 1);
            assert(v2 & 3 == 0);
        }
    } else {
        assert(d[3 * g + 2] == byte_at(s, 3 * g + 2));
    }
}

/// Encoding inverts decoding: a valid text is exactly the encoding of its
/// decoded bytes, so each byte sequence has one text form and each valid
/// text one meaning.
pub proof fn lemma_encode_decode(s: Seq<char>)
    requires
        valid_b64(s),
    ensures
        encode_b64(decode_b64(s)) =~= s,
{
    let n = s.len() as int;
    let d = decode_b64(s);
    let m = decoded_len(s.len()) as int;
    assert(n == 4 * (n / 4) + n % 4);
    assert(encoded_len(d.len()) == s.len());
    assert forall|i: int| 0 <= i < n implies encode_b64(d)[i] == s[i] by {
        lemma_sextet_of_decoded(s, i);
        lemma_b64_val_char(s[i]);
    }
}

/// Decoding inverts encoding: for every byte sequence, the encoded text is
/// valid and decodes to exactly the original bytes.
pub proof fn lemma_decode_encode(b: Seq<u8>)
    ensures
        valid_b64(encode_b64(b)),
        decode_result(encode_b64(b)) == Ok::<Seq<u8>, DecodeError>(b),
{
    let e = encode_b64(b);
    let n = b.len() as int;
    let m = encoded_len(b.len()) as int;
    let p = n / 3;
    assert(n == 3 * p + n % 3);
    assert forall|i: int| 0 <= i < e.len() implies is_b64_char(#[trigger] e[i]) by {
        lemma_sextet_val(b, i);
    }
    assert(m % 4 != 1);
    if n % 3 == 1 {
        let i = m - 1;
        assert(i == 4 * p + 1);
        assert(i / 4 == p && i % 4 == 1);
        lemma_sextet_val(b, i);
        assert(sextet_at(b, i) == (b[3 * p] & 3) << 4);
        let x = b[3 * p];
        assert(((x & 3) << 4) & 15 == 0) by (bit_vector);
    } else if n % 3 == 2 {
        let i = m - 1;
        assert(i == 4 * p + 2);
        assert(i / 4 == p && i % 4 == 2);
        lemma_sextet_val(b, i);
        assert(sextet_at(b, i) == (b[3 * p + 1] & 15) << 2);
        let x = b[3 * p + 1];
        assert(((x & 15) << 2) & 3 == 0) by (bit_vector);
    }
    assert(padding_bits_zero(e));
    assert(decoded_len(e.len()) == b.len());
    assert forall|j: int| 0 <= j < n implies decode_b64(e)[j] == b[j] by {
        lemma_byte_roundtrip(b, j);
    }
    assert(decode_b64(e) =~= b);
}

} // verus!
