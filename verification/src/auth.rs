//! The authorization policy that gates changes to the registry.
//!
//! Reading is open to everyone. Adding, modifying and deleting a mapping
//! need a credential equal to the configured secret. The comparison is plain
//! equality of two optional values, so it also holds when both are absent:
//! an instance that configures no secret accepts changes from requests that
//! carry no credential, and rejects every request that carries one. To lock
//! an instance, configure a secret.

use vstd::prelude::*;
use crate::text::{opt_str_view, opt_string_view, same_text};

verus! {

/// What a request wants to do with the registry.
#[derive(Clone, Copy, Debug, PartialEq, Eq, Structural)]
pub enum Operation {
    Read,
    Add,
    Modify,
    Delete,
}

/// Whether `credential` allows `operation` when `secret` is configured.
pub open spec fn spec_authorized(
    secret: Option<Seq<char>>,
    credential: Option<Seq<char>>,
    operation: Operation,
) -> bool {
    operation == Operation::Read || credential == secret
}

/// Whether an optional credential equals an optional secret: both absent, or
/// both present with the same characters.
pub fn credential_matches(secret: &Option<String>, credential: Option<&str>) -> (equal: bool)
    ensures
        equal == (opt_str_view(credential) == opt_string_view(*secret)),
{
    match secret {
        Some(s) => match credential {
            Some(c) => same_text(s.as_str(), c),
            None => false,
        },
        None => credential.is_none(),
    }
}

/// Decides whether a request that supplies `credential` may perform
/// `operation` on an instance configured with `secret`.
pub fn authorized(secret: &Option<String>, credential: Option<&str>, operation: Operation) -> (allowed: bool)
    ensures
        allowed == spec_authorized(opt_string_view(*secret), opt_str_view(credential), operation),
{
    match operation {
        Operation::Read => true,
        _ => credential_matches(secret, credential),
    }
}

} // verus!
