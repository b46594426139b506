//! Tokens, and the two steps every request goes through: reading a bearer
//! credential as an unvalidated token, and comparing that token with a secret.

use vstd::prelude::*;
use vstd::slice::slice_subrange;
use crate::codec::{
    all_hex_digits, as_text, decode_outcome, encode, encoded, lemma_decode_accepts,
    lemma_decode_encoded, value_from_bytes, DecodeError,
};
use crate::outside::{hex_decode, verify_slices_are_equal};

verus! {

/// How a request can fail to be let through.
#[derive(Clone, Copy, Debug, PartialEq, Eq, Structural)]
pub enum AuthError {
    /// No credential was presented at all.
    MissingCredential,
    /// A credential was presented, but its token part is absent or is not 64
    /// hexadecimal digits.
    MalformedCredential,
    /// The token is well formed but differs from the secret that guards the
    /// operation.
    ValidationFailed,
    /// The token is well formed but names no project.
    UnknownIdentifier,
    /// The system's source of randomness gave nothing.
    EntropySourceFailure,
}

/// The family of response in which a failure is reported.
#[derive(Clone, Copy, Debug, PartialEq, Eq, Structural)]
pub enum ResponseClass {
    Unauthorized,
    NotFound,
    InternalError,
}

impl AuthError {
    /// Credential failures are reported as unauthorized, an unknown project as
    /// not found, and a failed source of randomness as an internal error.
    pub open spec fn spec_response_class(self) -> ResponseClass {
        match self {
            AuthError::MissingCredential => ResponseClass::Unauthorized,
            AuthError::MalformedCredential => ResponseClass::Unauthorized,
            AuthError::ValidationFailed => ResponseClass::Unauthorized,
            AuthError::UnknownIdentifier => ResponseClass::NotFound,
            AuthError::EntropySourceFailure => ResponseClass::InternalError,
        }
    }

    /// The text that goes with each failure. It tells a missing credential
    /// from a malformed one, and says nothing of which secret a token was
    /// compared with.
    pub open spec fn spec_message(self) -> Seq<char> {
        match self {
            AuthError::MissingCredential => "Missing Authorization Header"@,
            AuthError::MalformedCredential => "Invalid Authorization Header"@,
            AuthError::ValidationFailed => "Invalid Authorization"@,
            AuthError::UnknownIdentifier => "Unknown Project"@,
            AuthError::EntropySourceFailure => "Internal Server Error"@,
        }
    }

    /// The family of response in which the failure is reported.
    #[verifier::when_used_as_spec(spec_response_class)]
    pub fn response_class(self) -> (class: ResponseClass)
        ensures
            class == self.spec_response_class(),
    {
        match self {
            AuthError::MissingCredential => ResponseClass::Unauthorized,
            AuthError::MalformedCredential => ResponseClass::Unauthorized,
            AuthError::ValidationFailed => ResponseClass::Unauthorized,
            AuthError::UnknownIdentifier => ResponseClass::NotFound,
            AuthError::EntropySourceFailure => ResponseClass::InternalError,
        }
    }

    /// The text that goes with the failure.
    pub fn message(self) -> (text: &'static str)
        ensures
            text@ == self.spec_message(),
    {
        match self {
            AuthError::MissingCredential => "Missing Authorization Header",
            AuthError::MalformedCredential => "Invalid Authorization Header",
            AuthError::ValidationFailed => "Invalid Authorization",
            AuthError::UnknownIdentifier => "Unknown Project",
            AuthError::EntropySourceFailure => "Internal Server Error",
        }
    }
}

/// A 256-bit secret or identifier.
#[derive(Clone, Copy)]
pub struct AuthToken(pub [u8; 32]);

/// The 32 bytes taken from a request, not yet compared with any secret.
pub struct UnvalidatedAuthToken(pub [u8; 32]);

impl View for AuthToken {
    type V = Seq<u8>;

    open spec fn view(&self) -> Seq<u8> {
        self.0@
    }
}

impl View for UnvalidatedAuthToken {
    type V = Seq<u8>;

    open spec fn view(&self) -> Seq<u8> {
        self.0@
    }
}

/// The scheme of a credential: the word `Bearer` and the space after it.
pub open spec fn scheme() -> Seq<u8> {
    seq![0x42u8, 0x65u8, 0x61u8, 0x72u8, 0x65u8, 0x72u8, 0x20u8]
}

/// Whether `header` opens with the scheme.
pub open spec fn has_scheme(header: Seq<u8>) -> bool {
    header.len() >= 7 && header.subrange(0, 7) == scheme()
}

/// The token part of a credential: all that follows the scheme.
pub open spec fn token_portion(header: Seq<u8>) -> Seq<u8>
    recommends
        has_scheme(header),
{
    header.subrange(7, header.len() as int)
}

/// A well-formed credential: the scheme, then 64 hexadecimal digits, and
/// nothing more.
pub open spec fn is_well_formed(header: Seq<u8>) -> bool {
    has_scheme(header) && header.len() == 71 && all_hex_digits(token_portion(header))
}

/// What reading a credential gives: the 32 bytes of its token, or the reason
/// there are none. A credential is the scheme and, right after it, 64
/// hexadecimal digits; whatever else is presented is malformed.
pub open spec fn bearer_outcome(header: Option<Seq<u8>>) -> Result<Seq<u8>, AuthError> {
    match header {
        None => Err(AuthError::MissingCredential),
        Some(text) => if has_scheme(text) {
            match decode_outcome(token_portion(text), 32) {
                Ok(value) => Ok(value),
                Err(_) => Err(AuthError::MalformedCredential),
            }
        } else {
            Err(AuthError::MalformedCredential)
        },
    }
}

/// The bytes of a credential, if one was presented.
pub open spec fn header_bytes(header: Option<&[u8]>) -> Option<Seq<u8>> {
    match header {
        Some(text) => Some(text@),
        None => None,
    }
}

/// The scheme followed by the hexadecimal form of a token reads as that
/// token.
pub proof fn lemma_bearer_reads_token(token: AuthToken)
    ensures
        bearer_outcome(Some(scheme() + encoded(token@))) == Ok::<Seq<u8>, AuthError>(token@),
{
    let header = scheme() + encoded(token@);
    assert(header.subrange(0, 7) =~= scheme());
    assert(token_portion(header) =~= encoded(token@));
    lemma_token_round_trip(token);
}

/// A credential is read as a token exactly when it is well formed. Every
/// other credential that was presented is malformed, whatever is wrong with
/// it, and only an absent one is missing.
pub proof fn lemma_bearer_accepts(text: Seq<u8>)
    ensures
        bearer_outcome(Some(text)) is Ok <==> is_well_formed(text),
        !is_well_formed(text) ==> bearer_outcome(Some(text)) == Err::<Seq<u8>, AuthError>(
            AuthError::MalformedCredential,
        ),
        bearer_outcome(None) == Err::<Seq<u8>, AuthError>(AuthError::MissingCredential),
{
    if has_scheme(text) {
        lemma_decode_accepts(token_portion(text), 32);
    }
}

/// Whether `header` opens with the word `Bearer` and a space.
pub fn opens_with_scheme(header: &[u8]) -> (r: bool)
    ensures
        r == has_scheme(header@),
{
    if header.len() < 7 {
        return false;
    }
    let r = header[0] == 0x42 && header[1] == 0x65 && header[2] == 0x61 && header[3] == 0x72
        && header[4] == 0x65 && header[5] == 0x72 && header[6] == 0x20;
    proof {
        let opening = header@.subrange(0, 7);
        if r {
            assert(opening =~= scheme());
        } else {
            assert(opening[0] == header@[0] && opening[1] == header@[1] && opening[2]
                == header@[2] && opening[3] == header@[3] && opening[4] == header@[4]
                && opening[5] == header@[5] && opening[6] == header@[6]);
        }
    }
    r
}

/// Cuts the token part out of a credential that opens with the scheme; of
/// any other credential there is none.
pub fn token_of(header: &[u8]) -> (token: Option<&[u8]>)
    ensures
        token is Some <==> has_scheme(header@),
        token matches Some(part) ==> part@ == token_portion(header@),
{
    if opens_with_scheme(header) {
        Some(slice_subrange(header, 7, header.len()))
    } else {
        None
    }
}

/// Reading the hexadecimal form of a token gives the token back.
pub proof fn lemma_token_round_trip(token: AuthToken)
    ensures
        encoded(token@).len() == 64,
        decode_outcome(encoded(token@), 32) == Ok::<Seq<u8>, DecodeError>(token@),
{
    lemma_decode_encoded(token@);
}

impl AuthToken {
    /// Reads a token from its 64 hexadecimal digits, of either case, or says
    /// why the text is no such thing.
    pub fn from_hex(hex: &[u8]) -> (r: Result<AuthToken, DecodeError>)
        ensures
            match r {
                Ok(token) => decode_outcome(hex@, 32) == Ok::<Seq<u8>, DecodeError>(token@),
                Err(e) => decode_outcome(hex@, 32) == Err::<Seq<u8>, DecodeError>(e),
            },
    {
        match hex_decode(hex) {
            Ok(value) => Ok(AuthToken(value)),
            Err(e) => Err(e),
        }
    }

    /// Takes a token from raw bytes, which must be exactly 32.
    pub fn from_bytes(bytes: &[u8]) -> (r: Option<AuthToken>)
        ensures
            r is Some <==> bytes@.len() == 32,
            r matches Some(token) ==> token@ == bytes@,
    {
        match value_from_bytes(bytes) {
            Some(value) => Some(AuthToken(value)),
            None => None,
        }
    }

    /// The token as 64 lowercase hexadecimal digits.
    pub fn to_hex(&self) -> (text: String)
        ensures
            text@ == as_text(encoded(self@)),
            vstd::utf8::encode_utf8(text@) == encoded(self@),
    {
        encode(&self.0)
    }
}

impl UnvalidatedAuthToken {
    /// Reads the credential of a request from the raw value of its
    /// authorization header. The credential is the word `Bearer`, one space,
    /// and the token as 64 hexadecimal digits of either case. No header at
    /// all is `MissingCredential`; a header that holds anything else is
    /// `MalformedCredential`. The token that comes out is authorized for
    /// nothing yet.
    pub fn from_header(header: Option<&[u8]>) -> (r: Result<UnvalidatedAuthToken, AuthError>)
        ensures
            match r {
                Ok(token) => bearer_outcome(header_bytes(header)) == Ok::<Seq<u8>, AuthError>(
                    token@,
                ),
                Err(e) => bearer_outcome(header_bytes(header)) == Err::<Seq<u8>, AuthError>(e),
            },
    {
        match header {
            None => Err(AuthError::MissingCredential),
            Some(text) => match token_of(text) {
                None => Err(AuthError::MalformedCredential),
                Some(part) => match hex_decode(part) {
                    Ok(value) => Ok(UnvalidatedAuthToken(value)),
                    Err(_) => Err(AuthError::MalformedCredential),
                },
            },
        }
    }

    /// Whether this token is the given secret. The bytes are compared in one
    /// call of `ring`'s constant-time comparison; nothing here looks at where
    /// they differ.
    pub fn validate(&self, secret: &AuthToken) -> (accepted: bool)
        ensures
            accepted == (self@ == secret@),
    {
        verify_slices_are_equal(self.0.as_slice(), secret.0.as_slice()).is_ok()
    }
}

} // verus!
