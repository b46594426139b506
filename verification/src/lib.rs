//! Capability-token authentication and identity masking for a rating service.
//!
//! Every secret and identifier is a 256-bit value that crosses the service
//! boundary as 64 hexadecimal characters. A bearer credential is parsed into
//! an unvalidated token, compared against the secret of the tier that guards
//! the operation, and a client's network address is replaced by a keyed tag
//! before anything about it is stored.

pub mod outside;
pub mod codec;
pub mod auth;
pub mod tiers;
pub mod masking;
pub mod generator;
pub mod service;
