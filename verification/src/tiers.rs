//! The three uses of a 256-bit token, kept apart by type.
//!
//! The service's own secret guards project creation and keys the masking of
//! client addresses. Each project has an identifier, whose possession alone
//! lets a client read and rate, and an admin key, which guards the adding of
//! samples.

use vstd::prelude::*;
use crate::auth::{AuthError, AuthToken, UnvalidatedAuthToken};

verus! {

/// The secret of the service's operator.
#[derive(Clone, Copy)]
pub struct AdminSecret(pub AuthToken);

/// The secret that guards one project's samples.
#[derive(Clone, Copy)]
pub struct ProjectAdminKey(pub AuthToken);

/// The name of a project, which is also the capability to read and rate it.
#[derive(Clone, Copy)]
pub struct ProjectId(pub AuthToken);

/// A project: its identifier and its admin key, both drawn when the project
/// is created and never changed.
#[derive(Clone, Copy)]
pub struct Project {
    pub identifier: ProjectId,
    pub admin_key: ProjectAdminKey,
}

impl View for AdminSecret {
    type V = Seq<u8>;

    open spec fn view(&self) -> Seq<u8> {
        self.0@
    }
}

impl View for ProjectAdminKey {
    type V = Seq<u8>;

    open spec fn view(&self) -> Seq<u8> {
        self.0@
    }
}

impl View for ProjectId {
    type V = Seq<u8>;

    open spec fn view(&self) -> Seq<u8> {
        self.0@
    }
}

/// What comparing a token with the secret of a tier gives.
pub open spec fn gate_outcome(token: Seq<u8>, secret: Seq<u8>) -> Result<(), AuthError> {
    if token == secret {
        Ok(())
    } else {
        Err(AuthError::ValidationFailed)
    }
}

impl AdminSecret {
    /// Lets through the holder of the service's secret, and nobody else.
    pub fn authorize(&self, token: &UnvalidatedAuthToken) -> (r: Result<(), AuthError>)
        ensures
            r == gate_outcome(token@, self@),
    {
        if token.validate(&self.0) {
            Ok(())
        } else {
            Err(AuthError::ValidationFailed)
        }
    }
}

impl ProjectAdminKey {
    /// Lets through the holder of the project's admin key, and nobody else.
    pub fn authorize(&self, token: &UnvalidatedAuthToken) -> (r: Result<(), AuthError>)
        ensures
            r == gate_outcome(token@, self@),
    {
        if token.validate(&self.0) {
            Ok(())
        } else {
            Err(AuthError::ValidationFailed)
        }
    }

    /// Takes an admin key as it was stored. A stored value of any length but
    /// 32 is no key.
    pub fn from_stored(bytes: &[u8]) -> (r: Option<ProjectAdminKey>)
        ensures
            r is Some <==> bytes@.len() == 32,
            r matches Some(key) ==> key@ == bytes@,
    {
        match AuthToken::from_bytes(bytes) {
            Some(token) => Some(ProjectAdminKey(token)),
            None => None,
        }
    }
}

impl UnvalidatedAuthToken {
    /// Reads the token as the identifier of a project. Nothing is compared:
    /// whether such a project exists is for its repository to say.
    pub fn as_project_id(&self) -> (id: ProjectId)
        ensures
            id@ == self@,
    {
        ProjectId(AuthToken(self.0))
    }
}

} // verus!
