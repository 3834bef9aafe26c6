//! Mathematical descriptions of the hexadecimal and UUID text formats
//! used by the identity types, and the round-trip property of hex.
use vstd::prelude::*;

verus! {

/// The lowercase hexadecimal digit for a nibble `d` (0 to 15).
pub open spec fn hex_char(d: nat) -> char {
    if d == 0 { '0' } else if d == 1 { '1' } else if d == 2 { '2' } else if d == 3 { '3' }
    else if d == 4 { '4' } else if d == 5 { '5' } else if d == 6 { '6' } else if d == 7 { '7' }
    else if d == 8 { '8' } else if d == 9 { '9' } else if d == 10 { 'a' } else if d == 11 { 'b' }
    else if d == 12 { 'c' } else if d == 13 { 'd' } else if d == 14 { 'e' } else { 'f' }
}

/// Lowercase hex text of `bytes`: two digits per byte, high nibble first.
pub open spec fn hex_lower(bytes: Seq<u8>) -> Seq<char> {
    Seq::new(
        2 * bytes.len(),
        |i: int|
            if i % 2 == 0 {
                hex_char((bytes[i / 2] / 16) as nat)
            } else {
                hex_char((bytes[i / 2] % 16) as nat)
            },
    )
}

/// Value of a hex digit byte; upper and lower case letters are accepted.
pub open spec fn hex_value(b: u8) -> Option<u8> {
    if 48 <= b <= 57 {
        Some((b - 48) as u8)
    } else if 65 <= b <= 70 {
        Some((b - 55) as u8)
    } else if 97 <= b <= 102 {
        Some((b - 87) as u8)
    } else {
        None
    }
}

/// The first position at or after `from` that holds no hex digit.
pub open spec fn first_non_hex(d: Seq<u8>, from: nat) -> Option<nat>
    decreases d.len() - from,
{
    if from >= d.len() {
        None
    } else if hex_value(d[from as int]) is None {
        Some(from)
    } else {
        first_non_hex(d, from + 1)
    }
}

/// The bytes denoted by a text of hex digits (two digits per byte).
pub open spec fn hex_bytes(d: Seq<u8>) -> Seq<u8> {
    Seq::new(
        d.len() / 2,
        |i: int| (hex_value(d[2 * i])->0 * 16 + hex_value(d[2 * i + 1])->0) as u8,
    )
}

/// Why a hex text could not be decoded into a fixed number of bytes.
#[derive(Debug, Clone, Copy, PartialEq, Eq, Structural)]
pub enum HexError {
    /// A byte that is no hex digit, at the given position.
    InvalidHexCharacter { c: char, index: usize },
    /// An odd number of digits.
    OddLength,
    /// A digit count that does not match the expected byte count.
    InvalidStringLength,
}

/// Decoding of the hex text `d` (its UTF-8 bytes) into exactly `n` bytes.
pub open spec fn decode_hex_exact(d: Seq<u8>, n: nat) -> Result<Seq<u8>, HexError> {
    if d.len() % 2 != 0 {
        Err(HexError::OddLength)
    } else if d.len() / 2 != n {
        Err(HexError::InvalidStringLength)
    } else {
        match first_non_hex(d, 0) {
            Some(i) => Err(HexError::InvalidHexCharacter { c: d[i as int] as char, index: i as usize }),
            None => Ok(hex_bytes(d)),
        }
    }
}

/// Byte `j` (0 = most significant) of the big-endian form of `v`.
pub open spec fn be_byte(v: u128, j: int) -> u8 {
    ((v >> ((120 - 8 * j) as u128)) & 0xff) as u8
}

/// The 16 bytes of `v`, most significant first.
pub open spec fn be_bytes(v: u128) -> Seq<u8> {
    Seq::new(16, |j: int| be_byte(v, j))
}

/// Inserts the hyphens of the 8-4-4-4-12 UUID layout into 32 hex digits.
pub open spec fn hyphenate(h: Seq<char>) -> Seq<char> {
    h.subrange(0, 8) + seq!['-'] + h.subrange(8, 12) + seq!['-'] + h.subrange(12, 16)
        + seq!['-'] + h.subrange(16, 20) + seq!['-'] + h.subrange(20, 32)
}

/// The hyphenated lowercase text of the UUID with value `v`.
pub open spec fn uuid_text(v: u128) -> Seq<char> {
    hyphenate(hex_lower(be_bytes(v)))
}

/// The bytes of a random (version 4, RFC 4122 variant) UUID carry the
/// version in the high nibble of byte 6 and the variant in byte 8.
pub open spec fn v4_layout(bytes: Seq<u8>) -> bool {
    bytes.len() == 16 && bytes[6] / 16 == 4 && bytes[8] / 64 == 2
}

/// The ASCII code of each hex digit.
proof fn lemma_hex_char_code(d: nat)
    requires
        d < 16,
    ensures
        hex_value(hex_char(d) as u8) == Some(d as u8),
        (hex_char(d) as u32) < 128,
{
}

/// Decoding the lowercase hex text of `bytes` gives `bytes` back.
pub proof fn hex_round_trip(bytes: Seq<u8>, text: Seq<u8>)
    requires
        text.len() == 2 * bytes.len(),
        forall|i: int| 0 <= i < text.len() ==> #[trigger] text[i] == hex_lower(bytes)[i] as u8,
    ensures
        decode_hex_exact(text, bytes.len()) == Ok::<Seq<u8>, HexError>(bytes),
{
    assert forall|i: int| 0 <= i < text.len() implies #[trigger] hex_value(text[i]) is Some by {
        if i % 2 == 0 {
            lemma_hex_char_code((bytes[i / 2] / 16) as nat);
        } else {
            lemma_hex_char_code((bytes[i / 2] % 16) as nat);
        }
    }
    lemma_no_non_hex(text, 0);
    assert forall|i: int| 0 <= i < bytes.len() implies #[trigger] hex_bytes(text)[i] == bytes[i] by {
        lemma_hex_char_code((bytes[i] / 16) as nat);
        lemma_hex_char_code((bytes[i] % 16) as nat);
        assert(text[2 * i] == hex_lower(bytes)[2 * i] as u8);
        assert(text[2 * i + 1] == hex_lower(bytes)[2 * i + 1] as u8);
        assert((2 * i) / 2 == i);
        assert((2 * i + 1) / 2 == i);
        assert((2 * i) % 2 == 0);
        assert((2 * i + 1) % 2 == 1);
        let b = bytes[i];
        assert(b == (b / 16) * 16 + b % 16);
    }
    assert(hex_bytes(text) =~= bytes);
}

proof fn lemma_no_non_hex(d: Seq<u8>, from: nat)
    requires
        forall|i: int| 0 <= i < d.len() ==> #[trigger] hex_value(d[i]) is Some,
    ensures
        first_non_hex(d, from) is None,
    decreases d.len() - from,
{
    if from < d.len() {
        lemma_no_non_hex(d, from + 1);
    }
}

} // verus!
