//! What the HTTP surface answers: the fixed pages, the redirect for a short
//! name, and the status code for each outcome of a request.

use vstd::prelude::*;
use crate::auth::{spec_authorized, Operation};
use crate::mapping::{spec_resolve, Redirection, RedirectionView};
use crate::registry::{spec_get, Registry, RegistryError, RegistryView};
use crate::text::opt_str_view;

verus! {

/// The text of the front page.
pub open spec fn spec_index() -> Seq<char> {
    "Welcome to Shlonk, a simple, fast, URL shortener.\nThere is nothing to see here, please go to /<name> to get redirected to the URL you want.\nIf you are the owner of this Shlonk instance, edit the YAML file to add new URLs.\n"@
}

/// The front page.
pub fn index() -> (page: &'static str)
    ensures
        page@ == spec_index(),
{
    "Welcome to Shlonk, a simple, fast, URL shortener.\nThere is nothing to see here, please go to /<name> to get redirected to the URL you want.\nIf you are the owner of this Shlonk instance, edit the YAML file to add new URLs.\n"
}

/// The text shown for a name that no mapping goes by.
pub open spec fn spec_not_found() -> Seq<char> {
    "Sorry, this URL was not found."@
}

/// The page shown for a name that no mapping goes by.
pub fn not_found() -> (page: &'static str)
    ensures
        page@ == spec_not_found(),
{
    "Sorry, this URL was not found."
}

/// The redirect that `name` leads to, if a mapping goes by it.
pub open spec fn spec_get_url(name: Seq<char>, registry: RegistryView) -> Option<RedirectionView> {
    match spec_get(registry, name) {
        Some(mapping) => Some(spec_resolve(mapping)),
        None => None,
    }
}

/// Resolves a short name to its redirect. A name that no mapping goes by
/// gives nothing, which the server answers with the not-found page.
pub fn get_url(name: &str, registry: &Registry) -> (redirect: Option<Redirection>)
    ensures
        match redirect {
            Some(r) => spec_get_url(name@, registry@) == Some(r@),
            None => spec_get_url(name@, registry@) is None,
        },
{
    match registry.get(name) {
        Some(mapping) => Some(mapping.resolve()),
        None => None,
    }
}

/// The target of `name` as the read interface reports it. Reading is
/// authorized whatever the credential.
pub open spec fn spec_read_url(
    name: Seq<char>,
    credential: Option<Seq<char>>,
    registry: RegistryView,
) -> Result<Seq<char>, RegistryError> {
    if !spec_authorized(registry.secret, credential, Operation::Read) {
        Err(RegistryError::Unauthorized)
    } else {
        match spec_get(registry, name) {
            Some(mapping) => Ok(spec_resolve(mapping).location),
            None => Err(RegistryError::NotFound),
        }
    }
}

/// Reads the target of `name` for the read interface: the location of its
/// redirect, or `NotFound`.
pub fn read_url(name: &str, credential: Option<&str>, registry: &Registry) -> (result: Result<
    String,
    RegistryError,
>)
    ensures
        match result {
            Ok(target) => spec_read_url(name@, opt_str_view(credential), registry@) == Ok::<
                Seq<char>,
                RegistryError,
            >(target@),
            Err(e) => spec_read_url(name@, opt_str_view(credential), registry@) == Err::<
                Seq<char>,
                RegistryError,
            >(e),
        },
{
    if !registry.authorizes(credential, Operation::Read) {
        return Err(RegistryError::Unauthorized);
    }
    match get_url(name, registry) {
        Some(redirect) => Ok(redirect.location),
        None => Err(RegistryError::NotFound),
    }
}

/// The status code that answers each outcome of a request.
pub open spec fn spec_status_code(outcome: Result<(), RegistryError>) -> u16 {
    match outcome {
        Ok(_) => 200,
        Err(RegistryError::Unauthorized) => 401,
        Err(RegistryError::NotFound) => 404,
        Err(RegistryError::Conflict) => 409,
        Err(RegistryError::Internal) => 500,
    }
}

/// The status code that answers `outcome`.
pub fn status_code(outcome: Result<(), RegistryError>) -> (code: u16)
    ensures
        code == spec_status_code(outcome),
{
    match outcome {
        Ok(_) => 200,
        Err(RegistryError::Unauthorized) => 401,
        Err(RegistryError::NotFound) => 404,
        Err(RegistryError::Conflict) => 409,
        Err(RegistryError::Internal) => 500,
    }
}

} // verus!
