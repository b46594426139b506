//! Fresh 256-bit tokens from the operating system's random number generator.

use vstd::prelude::*;
use crate::auth::{AuthError, AuthToken};
use crate::outside::generate_32;

verus! {

/// What one draw from the generator becomes: a token when the source gave 32
/// bytes, and otherwise a failure that no weaker source makes up for.
pub fn token_from_draw(drawn: Option<[u8; 32]>) -> (r: Result<AuthToken, AuthError>)
    ensures
        r == match drawn {
            Some(value) => Ok::<AuthToken, AuthError>(AuthToken(value)),
            None => Err::<AuthToken, AuthError>(AuthError::EntropySourceFailure),
        },
{
    match drawn {
        Some(value) => Ok(AuthToken(value)),
        None => Err(AuthError::EntropySourceFailure),
    }
}

/// Draws a fresh token. Each call draws anew from the system's generator;
/// the only failure is that of the source itself.
pub fn generate() -> (r: Result<AuthToken, AuthError>)
    ensures
        r matches Err(e) ==> e == AuthError::EntropySourceFailure,
{
    token_from_draw(generate_32().ok())
}

} // verus!
