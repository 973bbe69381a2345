//! Laws of the registry: what holds of its operations taken together,
//! whatever the registry, the names, the mappings and the credentials.

use vstd::prelude::*;
use crate::auth::{spec_authorized, Operation};
use crate::config::ConfigView;
use crate::mapping::UrlView;
use crate::registry::{
    spec_delete, spec_get, spec_insert, spec_load, spec_update, Outcome, RegistryError,
    RegistryView,
};

verus! {

/// A mapping that was added is found under its name, unchanged. Adding
/// succeeds whenever the credential is right and the name is free.
pub proof fn law_insert_then_get(
    registry: RegistryView,
    name: Seq<char>,
    mapping: UrlView,
    credential: Option<Seq<char>>,
)
    ensures
        spec_insert(registry, name, mapping, credential).result is Ok <==> spec_authorized(
            registry.secret,
            credential,
            Operation::Add,
        ) && !registry.mappings.dom().contains(name),
        spec_insert(registry, name, mapping, credential).result is Ok ==> spec_get(
            spec_insert(registry, name, mapping, credential).registry,
            name,
        ) == Some(mapping),
{
}

/// Adding under a name that was just added is a conflict when the
/// credential is right (as the credential of the first call is), and is
/// refused as unauthorized when it is not. Either way the registry, and
/// so its size, stays as the first call left it.
pub proof fn law_second_insert_conflicts(
    registry: RegistryView,
    name: Seq<char>,
    first: UrlView,
    first_credential: Option<Seq<char>>,
    second: UrlView,
    second_credential: Option<Seq<char>>,
)
    requires
        spec_insert(registry, name, first, first_credential).result is Ok,
    ensures
        ({
            let before = spec_insert(registry, name, first, first_credential).registry;
            let after = spec_insert(before, name, second, second_credential);
            &&& after.registry == before
            &&& after.registry.mappings.dom().len() == before.mappings.dom().len()
            &&& spec_authorized(before.secret, second_credential, Operation::Add) ==> after.result
                == Err::<(), RegistryError>(RegistryError::Conflict)
            &&& !spec_authorized(before.secret, second_credential, Operation::Add) ==> after.result
                == Err::<(), RegistryError>(RegistryError::Unauthorized)
            &&& spec_insert(before, name, second, first_credential).result == Err::<
                (),
                RegistryError,
            >(RegistryError::Conflict)
        }),
{
}

/// Replacing or removing a mapping under a name that the registry does
/// not hold is answered with `NotFound` when the credential is right, and
/// leaves the registry as it was.
pub proof fn law_unknown_name_not_found(
    registry: RegistryView,
    name: Seq<char>,
    mapping: UrlView,
    credential: Option<Seq<char>>,
)
    requires
        !registry.mappings.dom().contains(name),
    ensures
        spec_update(registry, name, mapping, credential).registry == registry,
        spec_delete(registry, name, credential).registry == registry,
        spec_authorized(registry.secret, credential, Operation::Modify) ==> spec_update(
            registry,
            name,
            mapping,
            credential,
        ).result == Err::<(), RegistryError>(RegistryError::NotFound),
        spec_authorized(registry.secret, credential, Operation::Delete) ==> spec_delete(
            registry,
            name,
            credential,
        ).result == Err::<(), RegistryError>(RegistryError::NotFound),
{
}

/// A change that comes with a credential other than the configured
/// secret is answered with `Unauthorized`, whatever the name, and leaves
/// the registry as it was.
pub proof fn law_wrong_credential_changes_nothing(
    registry: RegistryView,
    name: Seq<char>,
    mapping: UrlView,
    credential: Option<Seq<char>>,
)
    requires
        credential != registry.secret,
    ensures
        spec_insert(registry, name, mapping, credential) == (Outcome {
            registry,
            result: Err(RegistryError::Unauthorized),
        }),
        spec_update(registry, name, mapping, credential) == (Outcome {
            registry,
            result: Err(RegistryError::Unauthorized),
        }),
        spec_delete(registry, name, credential) == (Outcome {
            registry,
            result: Err(RegistryError::Unauthorized),
        }),
{
}

/// Loading a configuration that was written out from a registry gives that
/// registry back: the same mappings under the same names, the same port
/// and the same secret. The configuration stands for what `snapshot`
/// returns, the second registry for what `load` makes of it.
pub proof fn law_snapshot_reloads(
    registry: RegistryView,
    config: ConfigView,
    reloaded: RegistryView,
)
    requires
        spec_load(config) == Some(registry),
        spec_load(config) == Some(reloaded),
    ensures
        reloaded == registry,
        forall|name: Seq<char>| spec_get(reloaded, name) == spec_get(registry, name),
{
}

} // verus!
