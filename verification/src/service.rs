//! What the service decides on each request, between the questions it puts
//! to its project repository.
//!
//! The caller reads the credential, asks the repository what the operation
//! needs, and hands the answer here; it then carries out what is decided.

use vstd::prelude::*;
use crate::auth::{AuthError, AuthToken, UnvalidatedAuthToken};
use crate::generator::generate;
use crate::tiers::{gate_outcome, AdminSecret, Project, ProjectAdminKey, ProjectId};

verus! {

/// The project that two draws make: the first is its identifier, the second
/// its admin key. If either draw failed there is no project.
pub open spec fn assembled(
    identifier: Result<AuthToken, AuthError>,
    admin_key: Result<AuthToken, AuthError>,
) -> Result<Project, AuthError> {
    match (identifier, admin_key) {
        (Ok(identifier), Ok(admin_key)) => Ok(
            Project { identifier: ProjectId(identifier), admin_key: ProjectAdminKey(admin_key) },
        ),
        (Err(e), _) => Err(e),
        (Ok(_), Err(e)) => Err(e),
    }
}

/// Puts a project together from the two draws made for it.
pub fn assemble_project(
    identifier: Result<AuthToken, AuthError>,
    admin_key: Result<AuthToken, AuthError>,
) -> (r: Result<Project, AuthError>)
    ensures
        r == assembled(identifier, admin_key),
{
    match identifier {
        Err(e) => Err(e),
        Ok(identifier) => match admin_key {
            Err(e) => Err(e),
            Ok(admin_key) => Ok(
                Project { identifier: ProjectId(identifier), admin_key: ProjectAdminKey(admin_key) },
            ),
        },
    }
}

/// Creates a project for the holder of the service's secret: a fresh
/// identifier and a fresh admin key, drawn one after the other. Anyone else
/// is turned away before anything is drawn.
pub fn new_project(auth_token: &UnvalidatedAuthToken, admin_secret: &AdminSecret) -> (r: Result<
    Project,
    AuthError,
>)
    ensures
        match r {
            Ok(_) => auth_token@ == admin_secret@,
            Err(e) => e == if auth_token@ == admin_secret@ {
                AuthError::EntropySourceFailure
            } else {
                AuthError::ValidationFailed
            },
        },
{
    match admin_secret.authorize(auth_token) {
        Err(e) => Err(e),
        Ok(()) => {
            let identifier = generate();
            let admin_key = generate();
            assemble_project(identifier, admin_key)
        },
    }
}

/// Whether a sample may be added, given the admin key that the repository
/// holds for the project. No usable key means no such project; a key that the
/// token does not match means no authorization.
pub open spec fn sample_outcome(token: Seq<u8>, stored_admin_key: Option<Seq<u8>>) -> Result<
    (),
    AuthError,
> {
    match stored_admin_key {
        Some(key) => if key.len() == 32 {
            gate_outcome(token, key)
        } else {
            Err(AuthError::UnknownIdentifier)
        },
        None => Err(AuthError::UnknownIdentifier),
    }
}

/// The bytes of a stored value, if there is one.
pub open spec fn stored_bytes(stored: Option<Vec<u8>>) -> Option<Seq<u8>> {
    match stored {
        Some(bytes) => Some(bytes@),
        None => None,
    }
}

/// Decides whether the bearer of `auth_token` may add a sample to the project
/// whose stored admin key is `stored_admin_key`.
pub fn new_sample(auth_token: &UnvalidatedAuthToken, stored_admin_key: Option<Vec<u8>>) -> (r:
    Result<(), AuthError>)
    ensures
        r == sample_outcome(auth_token@, stored_bytes(stored_admin_key)),
{
    match stored_admin_key {
        None => Err(AuthError::UnknownIdentifier),
        Some(bytes) => match ProjectAdminKey::from_stored(bytes.as_slice()) {
            None => Err(AuthError::UnknownIdentifier),
            Some(key) => key.authorize(auth_token),
        },
    }
}

/// What holding a project identifier is worth: it opens a project that the
/// repository holds, and an identifier that the repository does not hold
/// names no project.
pub open spec fn capability_outcome(project_exists: bool) -> Result<(), AuthError> {
    if project_exists {
        Ok(())
    } else {
        Err(AuthError::UnknownIdentifier)
    }
}

/// Decides on an operation that the project identifier alone opens (reading
/// samples and ratings, giving a rating), given whether the repository holds
/// a project under the identifier presented.
pub fn capability(project_exists: bool) -> (r: Result<(), AuthError>)
    ensures
        r == capability_outcome(project_exists),
{
    if project_exists {
        Ok(())
    } else {
        Err(AuthError::UnknownIdentifier)
    }
}

/// Hands on what the repository drew from the samples of a project. For a
/// project that exists this is the sample, or none where the project has no
/// sample yet; an identifier that the repository does not hold names no
/// project.
pub fn get_sample<T>(project_exists: bool, sample: Option<T>) -> (r: Result<Option<T>, AuthError>)
    ensures
        r == if project_exists {
            Ok::<Option<T>, AuthError>(sample)
        } else {
            Err::<Option<T>, AuthError>(AuthError::UnknownIdentifier)
        },
{
    match capability(project_exists) {
        Ok(()) => Ok(sample),
        Err(e) => Err(e),
    }
}

} // verus!
