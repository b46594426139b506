//! The tag that stands for a client's network address wherever something
//! about the client is stored or looked up.

use vstd::prelude::*;
use crate::codec::{as_text, encode, encoded, value_from_bytes};
use crate::outside::{hmac_sha256, hmac_sha256_sign};
use crate::tiers::AdminSecret;

verus! {

/// A network address as raw octets: four of them in one family, sixteen in
/// the other. Neither is padded to the width of the other.
#[derive(Clone, Copy, Debug)]
pub enum ClientAddress {
    V4([u8; 4]),
    V6([u8; 16]),
}

/// The tag of an address: 32 bytes from which the address cannot be read.
#[derive(Clone, Copy, Debug)]
pub struct IdentityTag(pub [u8; 32]);

impl View for IdentityTag {
    type V = Seq<u8>;

    open spec fn view(&self) -> Seq<u8> {
        self.0@
    }
}

impl ClientAddress {
    /// The octets of the address, in network order.
    pub open spec fn spec_octets(self) -> Seq<u8> {
        match self {
            ClientAddress::V4(octets) => octets@,
            ClientAddress::V6(octets) => octets@,
        }
    }

    /// The octets of the address, in network order: 4 or 16 of them.
    pub fn octets(self) -> (octets: Vec<u8>)
        ensures
            octets@ == self.spec_octets(),
    {
        match self {
            ClientAddress::V4(octets) => vstd::slice::slice_to_vec(octets.as_slice()),
            ClientAddress::V6(octets) => vstd::slice::slice_to_vec(octets.as_slice()),
        }
    }
}

/// The tag of `address` under `secret`: the HMAC, with SHA-256, of the
/// address's octets, keyed by the secret.
pub open spec fn masked(secret: Seq<u8>, address: ClientAddress) -> Seq<u8> {
    hmac_sha256(secret, address.spec_octets())
}

/// Computes the tag of an address. The tag depends on the secret and the
/// address and on nothing else, so one client has one tag in every project.
pub fn mask(secret: &AdminSecret, address: &ClientAddress) -> (tag: IdentityTag)
    ensures
        tag@ == masked(secret@, *address),
{
    let octets = address.octets();
    let bytes = hmac_sha256_sign(secret.0.0.as_slice(), octets.as_slice());
    let value = value_from_bytes(bytes.as_slice()).unwrap();
    IdentityTag(value)
}

impl IdentityTag {
    /// The tag as 64 lowercase hexadecimal digits.
    pub fn to_hex(&self) -> (text: String)
        ensures
            text@ == as_text(encoded(self@)),
    {
        encode(&self.0)
    }
}

/// Masking the same address under the same secret gives the same tag, every
/// time.
pub proof fn lemma_mask_is_deterministic(
    secret: Seq<u8>,
    address: ClientAddress,
    other_secret: Seq<u8>,
    other_address: ClientAddress,
)
    requires
        secret == other_secret,
        address == other_address,
    ensures
        masked(secret, address) == masked(other_secret, other_address),
{
}

/// Two addresses that differ, in family or in any octet, hand different
/// octets to the keyed hash.
pub proof fn lemma_octets_tell_addresses_apart(address: ClientAddress, other: ClientAddress)
    requires
        address != other,
    ensures
        address.spec_octets() != other.spec_octets(),
{
    match (address, other) {
        (ClientAddress::V4(a), ClientAddress::V4(b)) => {
            if a@ == b@ {
                assert(a =~= b);
            }
        },
        (ClientAddress::V6(a), ClientAddress::V6(b)) => {
            if a@ == b@ {
                assert(a =~= b);
            }
        },
        (ClientAddress::V4(a), ClientAddress::V6(b)) => {
            assert(a@.len() == 4 && b@.len() == 16);
        },
        (ClientAddress::V6(a), ClientAddress::V4(b)) => {
            assert(a@.len() == 16 && b@.len() == 4);
        },
    }
}

} // verus!
