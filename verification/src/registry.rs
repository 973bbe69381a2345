//! The live registry of mappings.
//!
//! A registry holds the mappings of an instance by name, together with the
//! settings it was started with. Reading takes a shared reference, so any
//! number of readers may run side by side; every change takes an exclusive
//! reference, checks the credential first, and either applies as a whole or
//! leaves the registry as it was.

use vstd::prelude::*;
use crate::auth::{authorized, spec_authorized, Operation};
use crate::config::{Config, ConfigReadingError, ConfigView};
use crate::listing::{
    find_name, find_repeat, first_repeat, lemma_mappings_at, lemma_mappings_dom, lemma_mappings_len, lemma_push,
    lemma_remove, lemma_update, listing, mappings, names_unique,
};
use crate::mapping::{Url, UrlView};
use crate::text::{opt_str_view, opt_string_view};

verus! {

/// Why the registry turned a request down.
#[derive(Clone, Copy, Debug, PartialEq, Eq, Structural)]
pub enum RegistryError {
    /// The credential does not authorize the operation.
    Unauthorized,
    /// The name to add is already taken.
    Conflict,
    /// No mapping goes by the name.
    NotFound,
    /// The change was applied but could not be written out.
    Internal,
}

/// Mathematical value of a [`Registry`].
pub struct RegistryView {
    pub mappings: Map<Seq<char>, UrlView>,
    pub port: u16,
    pub secret: Option<Seq<char>>,
}

/// A registry after a request, and what the request was answered with.
pub struct Outcome {
    pub registry: RegistryView,
    pub result: Result<(), RegistryError>,
}

/// The mapping that goes by `name`, if there is one.
pub open spec fn spec_get(registry: RegistryView, name: Seq<char>) -> Option<UrlView> {
    if registry.mappings.dom().contains(name) {
        Some(registry.mappings[name])
    } else {
        None
    }
}

/// Adding `mapping` under `name`: refused without the right credential,
/// then refused when the name is taken, else the mapping is added.
pub open spec fn spec_insert(
    registry: RegistryView,
    name: Seq<char>,
    mapping: UrlView,
    credential: Option<Seq<char>>,
) -> Outcome {
    if !spec_authorized(registry.secret, credential, Operation::Add) {
        Outcome { registry, result: Err(RegistryError::Unauthorized) }
    } else if registry.mappings.dom().contains(name) {
        Outcome { registry, result: Err(RegistryError::Conflict) }
    } else {
        Outcome {
            registry: RegistryView { mappings: registry.mappings.insert(name, mapping), ..registry },
            result: Ok(()),
        }
    }
}

/// Replacing the mapping under `name`: refused without the right
/// credential, then refused when the name is unknown, else the mapping is
/// replaced as a whole.
pub open spec fn spec_update(
    registry: RegistryView,
    name: Seq<char>,
    mapping: UrlView,
    credential: Option<Seq<char>>,
) -> Outcome {
    if !spec_authorized(registry.secret, credential, Operation::Modify) {
        Outcome { registry, result: Err(RegistryError::Unauthorized) }
    } else if !registry.mappings.dom().contains(name) {
        Outcome { registry, result: Err(RegistryError::NotFound) }
    } else {
        Outcome {
            registry: RegistryView { mappings: registry.mappings.insert(name, mapping), ..registry },
            result: Ok(()),
        }
    }
}

/// Removing the mapping under `name`: refused without the right
/// credential, then refused when the name is unknown, else the mapping is
/// removed.
pub open spec fn spec_delete(
    registry: RegistryView,
    name: Seq<char>,
    credential: Option<Seq<char>>,
) -> Outcome {
    if !spec_authorized(registry.secret, credential, Operation::Delete) {
        Outcome { registry, result: Err(RegistryError::Unauthorized) }
    } else if !registry.mappings.dom().contains(name) {
        Outcome { registry, result: Err(RegistryError::NotFound) }
    } else {
        Outcome {
            registry: RegistryView { mappings: registry.mappings.remove(name), ..registry },
            result: Ok(()),
        }
    }
}

/// The registry that a configuration loads as: none when two of its
/// entries share a name.
pub open spec fn spec_load(config: ConfigView) -> Option<RegistryView> {
    if names_unique(config.urls) {
        Some(
            RegistryView {
                mappings: mappings(config.urls),
                port: config.port,
                secret: config.secret,
            },
        )
    } else {
        None
    }
}

/// What a caller is told once an applied change has been written out, or
/// could not be: a failed write is an internal error, and the change stands.
pub open spec fn spec_confirm(saved: bool) -> Result<(), RegistryError> {
    if saved {
        Ok(())
    } else {
        Err(RegistryError::Internal)
    }
}

/// Turns the outcome of writing an applied change out into the answer for
/// the caller. The registry is not touched: a change that could not be
/// written is reported, not undone.
pub fn confirm(saved: bool) -> (result: Result<(), RegistryError>)
    ensures
        result == spec_confirm(saved),
{
    if saved {
        Ok(())
    } else {
        Err(RegistryError::Internal)
    }
}

/// The live set of mappings of an instance, with its settings.
pub struct Registry {
    entries: Vec<(String, Url)>,
    port: u16,
    secret: Option<String>,
}

impl View for Registry {
    type V = RegistryView;

    closed spec fn view(&self) -> RegistryView {
        RegistryView {
            mappings: mappings(listing(self.entries@)),
            port: self.port,
            secret: opt_string_view(self.secret),
        }
    }
}

impl Registry {
    #[verifier::type_invariant]
    spec fn names_are_unique(self) -> bool {
        names_unique(listing(self.entries@))
    }

    /// An empty registry that listens on `port` and accepts changes under
    /// `secret`.
    pub fn new(port: u16, secret: Option<String>) -> (registry: Self)
        ensures
            registry@.mappings == Map::<Seq<char>, UrlView>::empty(),
            registry@.port == port,
            registry@.secret == opt_string_view(secret),
    {
        let registry = Registry { entries: Vec::new(), port, secret };
        proof {
            assert(registry@.mappings =~= Map::<Seq<char>, UrlView>::empty());
        }
        registry
    }

    /// The port to listen on.
    pub fn port(&self) -> (port: u16)
        ensures
            port == self@.port,
    {
        self.port
    }

    /// Whether `credential` allows `operation` on this registry.
    pub fn authorizes(&self, credential: Option<&str>, operation: Operation) -> (allowed: bool)
        ensures
            allowed == spec_authorized(self@.secret, opt_str_view(credential), operation),
    {
        authorized(&self.secret, credential, operation)
    }

    /// The mapping that goes by `name`, if there is one. Reading needs no
    /// credential and changes nothing.
    pub fn get(&self, name: &str) -> (found: Option<&Url>)
        ensures
            match found {
                Some(mapping) => spec_get(self@, name@) == Some(mapping@),
                None => spec_get(self@, name@) is None,
            },
    {
        proof {
            use_type_invariant(self);
            lemma_mappings_dom(listing(self.entries@), name@);
        }
        match find_name(&self.entries, name) {
            Some(i) => {
                proof {
                    lemma_mappings_at(listing(self.entries@), i as int);
                }
                Some(&self.entries[i].1)
            },
            None => None,
        }
    }

    /// Adds `mapping` under `name`. The credential is checked first; a name
    /// that is taken is not overwritten.
    pub fn insert(&mut self, name: String, mapping: Url, credential: Option<&str>) -> (result:
        Result<(), RegistryError>)
        ensures
            result == spec_insert(old(self)@, name@, mapping@, opt_str_view(credential)).result,
            final(self)@ == spec_insert(old(self)@, name@, mapping@, opt_str_view(credential)).registry,
    {
        proof {
            use_type_invariant(&*self);
            lemma_mappings_dom(listing(self.entries@), name@);
        }
        if !self.authorizes(credential, Operation::Add) {
            return Err(RegistryError::Unauthorized);
        }
        if find_name(&self.entries, name.as_str()).is_some() {
            return Err(RegistryError::Conflict);
        }
        proof {
            lemma_push(listing(self.entries@), name@, mapping@);
            assert(listing(self.entries@.push((name, mapping))) =~= listing(self.entries@).push(
                (name@, mapping@),
            ));
        }
        let mut entries: Vec<(String, Url)> = Vec::new();
        core::mem::swap(&mut self.entries, &mut entries);
        entries.push((name, mapping));
        self.entries = entries;
        Ok(())
    }

    /// Replaces the mapping under `name` as a whole. The credential is
    /// checked first; an unknown name is not added.
    pub fn update(&mut self, name: &str, mapping: Url, credential: Option<&str>) -> (result:
        Result<(), RegistryError>)
        ensures
            result == spec_update(old(self)@, name@, mapping@, opt_str_view(credential)).result,
            final(self)@ == spec_update(old(self)@, name@, mapping@, opt_str_view(credential)).registry,
    {
        proof {
            use_type_invariant(&*self);
            lemma_mappings_dom(listing(self.entries@), name@);
        }
        if !self.authorizes(credential, Operation::Modify) {
            return Err(RegistryError::Unauthorized);
        }
        match find_name(&self.entries, name) {
            None => Err(RegistryError::NotFound),
            Some(i) => {
                let mut entries: Vec<(String, Url)> = Vec::new();
                core::mem::swap(&mut self.entries, &mut entries);
                let ghost before = entries@;
                let (key, _) = entries.remove(i);
                entries.insert(i, (key, mapping));
                proof {
                    lemma_update(listing(before), i as int, mapping@);
                    assert(listing(entries@) =~= listing(before).update(
                        i as int,
                        (name@, mapping@),
                    ));
                }
                self.entries = entries;
                Ok(())
            },
        }
    }

    /// Removes the mapping under `name`. The credential is checked first.
    pub fn delete(&mut self, name: &str, credential: Option<&str>) -> (result: Result<
        (),
        RegistryError,
    >)
        ensures
            result == spec_delete(old(self)@, name@, opt_str_view(credential)).result,
            final(self)@ == spec_delete(old(self)@, name@, opt_str_view(credential)).registry,
    {
        proof {
            use_type_invariant(&*self);
            lemma_mappings_dom(listing(self.entries@), name@);
        }
        if !self.authorizes(credential, Operation::Delete) {
            return Err(RegistryError::Unauthorized);
        }
        match find_name(&self.entries, name) {
            None => Err(RegistryError::NotFound),
            Some(i) => {
                let mut entries: Vec<(String, Url)> = Vec::new();
                core::mem::swap(&mut self.entries, &mut entries);
                let ghost before = entries@;
                let _ = entries.remove(i);
                proof {
                    lemma_remove(listing(before), i as int);
                    assert(listing(entries@) =~= listing(before).remove(i as int));
                }
                self.entries = entries;
                Ok(())
            },
        }
    }

    /// The number of mappings.
    pub fn len(&self) -> (count: usize)
        ensures
            self@.mappings.dom().finite(),
            count == self@.mappings.dom().len(),
    {
        proof {
            use_type_invariant(self);
            lemma_mappings_len(listing(self.entries@));
        }
        self.entries.len()
    }

    /// Takes a configuration into use. A configuration in which two
    /// mappings share a name is refused, with the first name that repeats.
    pub fn load(config: Config) -> (result: Result<Registry, ConfigReadingError>)
        ensures
            match result {
                Ok(registry) => spec_load(config@) == Some(registry@),
                Err(ConfigReadingError::DuplicateName(name)) => spec_load(config@) is None
                    && exists|j: int| #[trigger]
                    first_repeat(config@.urls, j) && name@ == config@.urls[j].0,
                Err(_) => false,
            },
    {
        match find_repeat(&config.urls) {
            Some(j) => {
                proof {
                    let i = choose|i: int|
                        0 <= i < j && (#[trigger] config@.urls[i]).0 == config@.urls[j as int].0;
                    assert(config@.urls[i].0 == config@.urls[j as int].0);
                }
                Err(ConfigReadingError::DuplicateName(config.urls[j].0.clone()))
            },
            None => Ok(Registry { entries: config.urls, port: config.port, secret: config.secret }),
        }
    }

    /// The full state of the registry as a configuration, ready to be
    /// written out. Loading the result gives this registry back.
    pub fn snapshot(&self) -> (config: Config)
        ensures
            spec_load(config@) == Some(self@),
    {
        proof {
            use_type_invariant(self);
        }
        let mut urls: Vec<(String, Url)> = Vec::new();
        let mut i: usize = 0;
        while i < self.entries.len()
            invariant
                i <= self.entries.len(),
                urls.len() == i,
                forall|k: int|
                    0 <= k < i ==> (#[trigger] urls@[k]).0@ == self.entries@[k].0@ && urls@[k].1@
                        == self.entries@[k].1@,
            decreases self.entries.len() - i,
        {
            let entry = &self.entries[i];
            urls.push((entry.0.clone(), entry.1.clone()));
            i += 1;
        }
        let secret = match &self.secret {
            Some(s) => Some(s.clone()),
            None => None,
        };
        proof {
            assert(listing(urls@) =~= listing(self.entries@));
        }
        Config { urls, port: self.port, secret }
    }
}

} // verus!
