//! The calls this library makes into `hex` and `ring`.
//!
//! Nothing in this file is proved: each contract restates what the called
//! function does, and the rest of the library is verified against it.

use vstd::prelude::*;
use crate::codec::{as_text, decode_outcome, encoded, DecodeError};

verus! {

/// The failure value of `ring`, which carries no information.
#[verifier::external_type_specification]
#[verifier::external_body]
pub struct ExUnspecified(ring::error::Unspecified);

/// `hex::encode` on a 32-byte value: two lowercase digits per byte, the high
/// half first.
#[verifier::external_body]
pub(crate) fn hex_encode(data: &[u8; 32]) -> (text: String)
    ensures
        text@ == as_text(encoded(data@)),
{
    hex::encode(data)
}

/// `hex::decode_to_slice` into a fresh 32-byte value. An odd length is
/// reported first, then a length other than 64, then the first byte that is
/// no hexadecimal digit; otherwise each pair of digits gives one byte. The
/// error of `hex` is handed on variant by variant.
#[verifier::external_body]
pub(crate) fn hex_decode(text: &[u8]) -> (r: Result<[u8; 32], DecodeError>)
    ensures
        match r {
            Ok(value) => decode_outcome(text@, 32) == Ok::<Seq<u8>, DecodeError>(value@),
            Err(e) => decode_outcome(text@, 32) == Err::<Seq<u8>, DecodeError>(e),
        },
{
    let mut value = [0u8; 32];
    match hex::decode_to_slice(text, &mut value) {
        Ok(()) => Ok(value),
        Err(hex::FromHexError::InvalidHexCharacter { c, index }) => Err(
            DecodeError::InvalidHexCharacter { c, index },
        ),
        Err(hex::FromHexError::OddLength) => Err(DecodeError::OddLength),
        Err(hex::FromHexError::InvalidStringLength) => Err(DecodeError::InvalidStringLength),
    }
}

/// `ring::constant_time::verify_slices_are_equal`: `Ok` exactly when the two
/// slices have the same length and the same bytes.
#[verifier::external_body]
#[allow(deprecated)]
pub(crate) fn verify_slices_are_equal(a: &[u8], b: &[u8]) -> (r: Result<
    (),
    ring::error::Unspecified,
>)
    ensures
        r is Ok <==> a@ == b@,
{
    ring::constant_time::verify_slices_are_equal(a, b)
}

/// `ring::rand::generate` for 32 bytes, on a `ring::rand::SystemRandom`.
/// Nothing is promised of the bytes, nor that there are any: the operating
/// system's generator may fail.
#[verifier::external_body]
pub(crate) fn generate_32() -> (drawn: Result<[u8; 32], ring::error::Unspecified>) {
    match ring::rand::generate::<[u8; 32]>(&ring::rand::SystemRandom::new()) {
        Ok(random) => Ok(random.expose()),
        Err(e) => Err(e),
    }
}

/// HMAC with SHA-256 of `data` under `key`, as RFC 2104 defines it.
pub uninterp spec fn hmac_sha256(key: Seq<u8>, data: Seq<u8>) -> Seq<u8>;

/// `ring::hmac::sign` with a key made by `ring::hmac::Key::new` for
/// `HMAC_SHA256`: the tag is the HMAC of the data under the key, and has 32
/// bytes. The key is no longer than one block of SHA-256, so it is used as it
/// is, and the data is far below the length that SHA-256 can take.
#[verifier::external_body]
pub(crate) fn hmac_sha256_sign(key: &[u8], data: &[u8]) -> (tag: Vec<u8>)
    requires
        key@.len() <= 64,
        data@.len() <= u32::MAX,
    ensures
        tag@ == hmac_sha256(key@, data@),
        tag@.len() == 32,
{
    let key = ring::hmac::Key::new(ring::hmac::HMAC_SHA256, key);
    ring::hmac::sign(&key, data).as_ref().to_vec()
}

} // verus!
