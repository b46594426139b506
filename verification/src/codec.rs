//! The textual form of a 256-bit value: 64 hexadecimal digits.
//!
//! Text is modelled as a sequence of bytes, one per character; encoding emits
//! lowercase digits only and decoding accepts both cases.

use vstd::prelude::*;
use crate::outside::hex_encode;

verus! {

/// Why a text is not the hexadecimal form of a value of the wanted width.
#[derive(Clone, Copy, Debug, PartialEq, Eq, Structural)]
pub enum DecodeError {
    /// The byte at `index` is not a hexadecimal digit; `c` is that byte as a
    /// character. Every byte before `index` is a digit.
    InvalidHexCharacter { c: char, index: usize },
    /// The text has an odd number of bytes.
    OddLength,
    /// The text has an even number of bytes, but not two for each byte of
    /// the value.
    InvalidStringLength,
}

/// `0`-`9`, `A`-`F` or `a`-`f`.
pub open spec fn is_hex_digit(b: u8) -> bool {
    ||| 0x30 <= b <= 0x39
    ||| 0x41 <= b <= 0x46
    ||| 0x61 <= b <= 0x66
}

/// `0`-`9` or `a`-`f`.
pub open spec fn is_lower_hex_digit(b: u8) -> bool {
    ||| 0x30 <= b <= 0x39
    ||| 0x61 <= b <= 0x66
}

/// The number a hexadecimal digit stands for.
pub open spec fn digit_value(b: u8) -> int
    recommends
        is_hex_digit(b),
{
    if b <= 0x39 {
        b - 0x30
    } else if b <= 0x46 {
        b - 0x41 + 10
    } else {
        b - 0x61 + 10
    }
}

/// The lowercase digit that stands for `n`.
pub open spec fn lower_digit(n: int) -> u8
    recommends
        0 <= n < 16,
{
    if n < 10 {
        (0x30 + n) as u8
    } else {
        (0x61 + n - 10) as u8
    }
}

/// The hexadecimal form of `bytes`: two lowercase digits per byte, the high
/// half first.
pub open spec fn encoded(bytes: Seq<u8>) -> Seq<u8> {
    Seq::new(
        2 * bytes.len(),
        |i: int|
            if i % 2 == 0 {
                lower_digit(bytes[i / 2] as int / 16)
            } else {
                lower_digit(bytes[i / 2] as int % 16)
            },
    )
}

/// A byte string read as text, one character per byte.
pub open spec fn as_text(bytes: Seq<u8>) -> Seq<char> {
    Seq::new(bytes.len(), |i: int| bytes[i] as char)
}

/// Every byte of `text` is a hexadecimal digit.
pub open spec fn all_hex_digits(text: Seq<u8>) -> bool {
    forall|i: int| 0 <= i < text.len() ==> is_hex_digit(#[trigger] text[i])
}

/// The first position at or after `from` that holds no hexadecimal digit, or
/// the length of `text` when there is none.
pub open spec fn first_non_digit(text: Seq<u8>, from: int) -> int
    decreases text.len() - from,
{
    if 0 <= from < text.len() && is_hex_digit(text[from]) {
        first_non_digit(text, from + 1)
    } else {
        from
    }
}

/// The bytes that a text of hexadecimal digits stands for.
pub open spec fn decoded(text: Seq<u8>) -> Seq<u8> {
    Seq::new(
        text.len() / 2,
        |i: int| (16 * digit_value(text[2 * i]) + digit_value(text[2 * i + 1])) as u8,
    )
}

/// What decoding `text` into a value of `width` bytes gives. An odd length is
/// found first, then a length that is not twice the width, then the first
/// byte that is no hexadecimal digit.
pub open spec fn decode_outcome(text: Seq<u8>, width: nat) -> Result<Seq<u8>, DecodeError> {
    let stop = first_non_digit(text, 0);
    if text.len() % 2 != 0 {
        Err(DecodeError::OddLength)
    } else if text.len() / 2 != width {
        Err(DecodeError::InvalidStringLength)
    } else if stop < text.len() {
        Err(DecodeError::InvalidHexCharacter { c: text[stop] as char, index: stop as usize })
    } else {
        Ok(decoded(text))
    }
}

/// Where `first_non_digit` stops: everything from `from` up to there is a
/// digit, and what stands there, if anything, is none.
pub proof fn lemma_first_non_digit(text: Seq<u8>, from: int)
    requires
        0 <= from <= text.len(),
    ensures
        from <= first_non_digit(text, from) <= text.len(),
        forall|i: int| from <= i < first_non_digit(text, from) ==> is_hex_digit(#[trigger] text[i]),
        first_non_digit(text, from) < text.len() ==> !is_hex_digit(
            text[first_non_digit(text, from)],
        ),
    decreases text.len() - from,
{
    if from < text.len() && is_hex_digit(text[from]) {
        lemma_first_non_digit(text, from + 1);
    }
}

/// The hexadecimal form of a value has two characters per byte, each of them
/// a digit or a lowercase letter from `a` to `f`.
pub proof fn lemma_encoded_is_canonical(value: Seq<u8>)
    ensures
        encoded(value).len() == 2 * value.len(),
        forall|i: int|
            0 <= i < encoded(value).len() ==> is_lower_hex_digit(#[trigger] encoded(value)[i]),
        all_hex_digits(encoded(value)),
{
    assert forall|i: int| 0 <= i < encoded(value).len() implies is_lower_hex_digit(
        #[trigger] encoded(value)[i],
    ) by {
        let v = value[i / 2] as int;
        assert(0 <= v / 16 < 16 && 0 <= v % 16 < 16);
    }
}

/// Decoding undoes encoding: the hexadecimal form of any value decodes to
/// that value, at the value's own width.
pub proof fn lemma_decode_encoded(value: Seq<u8>)
    ensures
        decode_outcome(encoded(value), value.len()) == Ok::<Seq<u8>, DecodeError>(value),
{
    let text = encoded(value);
    lemma_encoded_is_canonical(value);
    lemma_first_non_digit(text, 0);
    assert forall|i: int| 0 <= i < value.len() implies decoded(text)[i] == value[i] by {
        assert(text[2 * i] == lower_digit(value[i] as int / 16));
        assert(text[2 * i + 1] == lower_digit(value[i] as int % 16));
    }
    assert(decoded(text) =~= value);
}

/// Decoding succeeds on exactly the texts that have two characters for each
/// byte of the wanted width and hold hexadecimal digits only; every other
/// text is rejected.
pub proof fn lemma_decode_accepts(text: Seq<u8>, width: nat)
    ensures
        decode_outcome(text, width) is Ok <==> text.len() == 2 * width && all_hex_digits(text),
{
    lemma_first_non_digit(text, 0);
}

/// The characters of an encoded value, taken as UTF-8, are the encoded bytes
/// themselves.
pub proof fn lemma_encoded_text_bytes(value: Seq<u8>)
    ensures
        vstd::utf8::encode_utf8(as_text(encoded(value))) == encoded(value),
{
    let text = as_text(encoded(value));
    lemma_encoded_is_canonical(value);
    vstd::utf8::is_ascii_chars_encode_utf8(text);
    assert(vstd::utf8::encode_utf8(text) =~= encoded(value));
}

/// Takes raw bytes as a 32-byte value, which they are when there are exactly
/// 32 of them.
pub fn value_from_bytes(bytes: &[u8]) -> (r: Option<[u8; 32]>)
    ensures
        r is Some <==> bytes@.len() == 32,
        r matches Some(value) ==> value@ == bytes@,
{
    if bytes.len() != 32 {
        return None;
    }
    let mut value = [0u8; 32];
    let mut i: usize = 0;
    while i < 32
        invariant
            i <= 32,
            bytes@.len() == 32,
            forall|j: int| 0 <= j < i ==> value@[j] == bytes@[j],
        decreases 32 - i,
    {
        value[i] = bytes[i];
        i += 1;
    }
    assert(value@ =~= bytes@);
    Some(value)
}

/// The hexadecimal form of a 32-byte value: 64 lowercase digits.
pub fn encode(value: &[u8; 32]) -> (text: String)
    ensures
        text@ == as_text(encoded(value@)),
        vstd::utf8::encode_utf8(text@) == encoded(value@),
{
    let text = hex_encode(value);
    proof {
        lemma_encoded_text_bytes(value@);
    }
    text
}

} // verus!
