//! Hexadecimal encoding of byte strings (macaroons, certificates, payment
//! hashes), through the `hex` crate where the driver calls it.

use vstd::prelude::*;
use crate::text::digit_char;

verus! {

/// Why a string of hex digits could not be decoded; mirrors
/// `hex::FromHexError` variant for variant.
#[derive(Debug, Clone, Copy, PartialEq, Eq, Structural)]
pub enum HexError {
    /// The byte at `index` is not a hex digit; `c` is that byte read as a
    /// character.
    InvalidHexCharacter { c: char, index: usize },
    /// The input has an odd number of bytes.
    OddLength,
    /// The input does not fit a fixed-size output (never produced when
    /// decoding into a vector).
    InvalidStringLength,
}

/// Whether the byte `b` is one of `0-9`, `a-f` or `A-F`.
pub open spec fn is_hex_byte(b: u8) -> bool {
    (48 <= b <= 57) || (65 <= b <= 70) || (97 <= b <= 102)
}

/// The value of the hex digit `b`.
pub open spec fn hex_byte_value(b: u8) -> int {
    if 48 <= b <= 57 {
        b - 48
    } else if 65 <= b <= 70 {
        b - 55
    } else {
        b - 87
    }
}

/// Index of the first byte of `s` that is not a hex digit, or `s.len()`.
pub open spec fn first_non_hex(s: Seq<u8>) -> int
    decreases s.len(),
{
    if s.len() == 0 {
        0
    } else if !is_hex_byte(s[0]) {
        0
    } else {
        1 + first_non_hex(s.drop_first())
    }
}

/// The bytes that the hex digits `s` (of even length, all valid) stand for.
pub open spec fn hex_pairs(s: Seq<u8>) -> Seq<u8> {
    Seq::new(
        s.len() / 2,
        |i: int| (hex_byte_value(s[2 * i]) * 16 + hex_byte_value(s[2 * i + 1])) as u8,
    )
}

/// What `hex::decode` gives for the bytes `s`: an odd length is reported
/// first, then the first byte that is not a hex digit, else the decoded bytes.
pub open spec fn hex_decode_spec(s: Seq<u8>) -> Result<Seq<u8>, HexError> {
    if s.len() % 2 != 0 {
        Err(HexError::OddLength)
    } else if first_non_hex(s) < s.len() {
        Err(
            HexError::InvalidHexCharacter {
                c: s[first_non_hex(s)] as char,
                index: first_non_hex(s) as usize,
            },
        )
    } else {
        Ok(hex_pairs(s))
    }
}

/// The lowercase hex digit for the nibble `v` (`0 <= v < 16`).
pub open spec fn nibble_char(v: int) -> char {
    if v < 10 {
        digit_char(v)
    } else if v == 10 {
        'a'
    } else if v == 11 {
        'b'
    } else if v == 12 {
        'c'
    } else if v == 13 {
        'd'
    } else if v == 14 {
        'e'
    } else {
        'f'
    }
}

/// Lowercase hex encoding of `b`: two digits per byte, high nibble first.
pub open spec fn hex_lower(b: Seq<u8>) -> Seq<char> {
    Seq::new(
        2 * b.len(),
        |i: int|
            if i % 2 == 0 {
                nibble_char((b[i / 2] / 16) as int)
            } else {
                nibble_char((b[i / 2] % 16) as int)
            },
    )
}

/// Decodes the hex digits `data` with `hex::decode`.
///
/// The contract claims of `hex::decode` what its source (version 0.4.3)
/// shows: an odd length gives `OddLength`; otherwise the first byte that is
/// not a hex digit gives `InvalidHexCharacter` with that byte as a character
/// and its index; otherwise each pair of digits becomes one byte.
#[verifier::external_body]
fn hex_decode(data: &[u8]) -> (res: Result<Vec<u8>, HexError>)
    ensures
        match res {
            Ok(v) => hex_decode_spec(data@) == Ok::<Seq<u8>, HexError>(v@),
            Err(e) => hex_decode_spec(data@) == Err::<Seq<u8>, HexError>(e),
        },
{
    match hex::decode(data) {
        Ok(v) => Ok(v),
        Err(hex::FromHexError::InvalidHexCharacter { c, index }) => Err(
            HexError::InvalidHexCharacter { c, index },
        ),
        Err(hex::FromHexError::OddLength) => Err(HexError::OddLength),
        Err(hex::FromHexError::InvalidStringLength) => Err(HexError::InvalidStringLength),
    }
}

/// Encodes `data` in lowercase hex with `hex::encode`.
///
/// The contract claims what the crate documents: two lowercase hex digits
/// per byte, in order.
#[verifier::external_body]
fn hex_encode(data: &[u8]) -> (res: String)
    ensures
        res@ == hex_lower(data@),
{
    hex::encode(data)
}

/// Decodes the hex string `s` (upper or lower case digits) into bytes.
pub fn decode_hex(s: &str) -> (res: Result<Vec<u8>, HexError>)
    ensures
        match res {
            Ok(v) => hex_decode_spec(encode_utf8_of(s@)) == Ok::<Seq<u8>, HexError>(v@),
            Err(e) => hex_decode_spec(encode_utf8_of(s@)) == Err::<Seq<u8>, HexError>(e),
        },
{
    hex_decode(s.as_bytes())
}

/// Encodes `data` as lowercase hex.
pub fn encode_hex(data: &[u8]) -> (res: String)
    ensures
        res@ == hex_lower(data@),
{
    hex_encode(data)
}

/// What normalising the hex string `s` gives: decoded, then encoded again in
/// lowercase.
pub open spec fn normalized_hex_spec(s: Seq<char>) -> Result<Seq<char>, HexError> {
    match hex_decode_spec(encode_utf8_of(s)) {
        Ok(b) => Ok(hex_lower(b)),
        Err(e) => Err(e),
    }
}

/// The UTF-8 bytes of `s`.
pub open spec fn encode_utf8_of(s: Seq<char>) -> Seq<u8> {
    vstd::utf8::encode_utf8(s)
}

/// Decodes the hex string `s` and encodes the bytes again in lowercase, which
/// checks it and puts it in canonical form.
pub fn normalize_hex(s: &str) -> (res: Result<String, HexError>)
    ensures
        match res {
            Ok(t) => normalized_hex_spec(s@) == Ok::<Seq<char>, HexError>(t@),
            Err(e) => normalized_hex_spec(s@) == Err::<Seq<char>, HexError>(e),
        },
{
    match decode_hex(s) {
        Ok(bytes) => Ok(encode_hex(bytes.as_slice())),
        Err(e) => Err(e),
    }
}

fn nibble_str(v: u8) -> (res: &'static str)
    requires
        v < 16,
    ensures
        res@ == seq![nibble_char(v as int)],
{
    proof {
        reveal_strlit("0");
        reveal_strlit("1");
        reveal_strlit("2");
        reveal_strlit("3");
        reveal_strlit("4");
        reveal_strlit("5");
        reveal_strlit("6");
        reveal_strlit("7");
        reveal_strlit("8");
        reveal_strlit("9");
        reveal_strlit("a");
        reveal_strlit("b");
        reveal_strlit("c");
        reveal_strlit("d");
        reveal_strlit("e");
        reveal_strlit("f");
    }
    match v {
        0 => "0",
        1 => "1",
        2 => "2",
        3 => "3",
        4 => "4",
        5 => "5",
        6 => "6",
        7 => "7",
        8 => "8",
        9 => "9",
        10 => "a",
        11 => "b",
        12 => "c",
        13 => "d",
        14 => "e",
        _ => "f",
    }
}

/// Renders each byte of `data` as two lowercase hex digits, byte after byte.
pub fn lower_hex_digits(data: &[u8]) -> (res: String)
    ensures
        res@ == hex_lower(data@),
{
    let mut out = String::new();
    let n = data.len();
    let mut i: usize = 0;
    while i < n
        invariant
            n == data@.len(),
            i <= n,
            out@.len() == 2 * i,
            forall|k: int| 0 <= k < 2 * i ==> out@[k] == hex_lower(data@)[k],
        decreases n - i,
    {
        let b = data[i];
        let ghost before = out@;
        out.append(nibble_str(b / 16));
        out.append(nibble_str(b % 16));
        assert forall|k: int| 0 <= k < 2 * (i + 1) implies out@[k] == hex_lower(data@)[k] by {
            if k < 2 * i {
                assert(out@[k] == before[k]);
            } else if k == 2 * i {
                assert(k / 2 == i);
                assert(k % 2 == 0);
            } else {
                assert(k / 2 == i);
                assert(k % 2 == 1);
            }
        }
        i = i + 1;
    }
    assert(out@ =~= hex_lower(data@));
    out
}

} // verus!

verus! {

proof fn lemma_nibble_char(v: int)
    requires
        0 <= v < 16,
    ensures
        '\0' <= nibble_char(v) <= '\u{7f}',
        is_hex_byte(nibble_char(v) as u8),
        hex_byte_value(nibble_char(v) as u8) == v,
{
}

proof fn lemma_all_hex_first_non_hex(s: Seq<u8>)
    requires
        forall|i: int| 0 <= i < s.len() ==> is_hex_byte(#[trigger] s[i]),
    ensures
        first_non_hex(s) == s.len(),
    decreases s.len(),
{
    if s.len() > 0 {
        assert(is_hex_byte(s[0]));
        assert forall|i: int| 0 <= i < s.drop_first().len() implies is_hex_byte(
            #[trigger] s.drop_first()[i],
        ) by {
            assert(s.drop_first()[i] == s[i + 1]);
        }
        lemma_all_hex_first_non_hex(s.drop_first());
    }
}

proof fn lemma_hex_lower_bytes(b: Seq<u8>)
    ensures
        vstd::utf8::is_ascii_chars(hex_lower(b)),
        encode_utf8_of(hex_lower(b)).len() == 2 * b.len(),
        forall|i: int|
            0 <= i < 2 * b.len() ==> #[trigger] encode_utf8_of(hex_lower(b))[i] == hex_lower(b)[i]
                as u8,
{
    let c = hex_lower(b);
    assert forall|i: int| 0 <= i < c.len() implies '\0' <= #[trigger] c[i] <= '\u{7f}' by {
        if i % 2 == 0 {
            lemma_nibble_char((b[i / 2] / 16) as int);
        } else {
            lemma_nibble_char((b[i / 2] % 16) as int);
        }
    }
    vstd::utf8::is_ascii_chars_encode_utf8(c);
}

/// Decoding the lowercase hex encoding of any bytes gives those bytes back.
pub proof fn law_hex_round_trip(b: Seq<u8>)
    ensures
        hex_decode_spec(encode_utf8_of(hex_lower(b))) == Ok::<Seq<u8>, HexError>(b),
{
    let c = hex_lower(b);
    let s = encode_utf8_of(c);
    lemma_hex_lower_bytes(b);
    assert forall|i: int| 0 <= i < s.len() implies is_hex_byte(#[trigger] s[i]) by {
        assert(s[i] == c[i] as u8);
        if i % 2 == 0 {
            lemma_nibble_char((b[i / 2] / 16) as int);
        } else {
            lemma_nibble_char((b[i / 2] % 16) as int);
        }
    }
    lemma_all_hex_first_non_hex(s);
    assert forall|i: int| 0 <= i < b.len() implies #[trigger] hex_pairs(s)[i] == b[i] by {
        assert(s[2 * i] == c[2 * i] as u8);
        assert(s[2 * i + 1] == c[2 * i + 1] as u8);
        assert((2 * i) / 2 == i);
        assert((2 * i + 1) / 2 == i);
        assert((2 * i) % 2 == 0);
        assert((2 * i + 1) % 2 == 1);
        lemma_nibble_char((b[i] / 16) as int);
        lemma_nibble_char((b[i] % 16) as int);
        assert(b[i] / 16 * 16 + b[i] % 16 == b[i]);
    }
    assert(hex_pairs(s) =~= b);
}

/// Normalising an already normalised hex string changes nothing.
pub proof fn law_normalize_hex_idempotent(s: Seq<char>, t: Seq<char>)
    requires
        normalized_hex_spec(s) == Ok::<Seq<char>, HexError>(t),
    ensures
        normalized_hex_spec(t) == Ok::<Seq<char>, HexError>(t),
{
    let b = hex_pairs(encode_utf8_of(s));
    law_hex_round_trip(b);
}

} // verus!
