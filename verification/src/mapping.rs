//! The mapping value type and the redirect it resolves to.

use vstd::prelude::*;

verus! {

/// Status code of a permanent redirect, which clients may cache.
pub const STATUS_PERMANENT: u16 = 301;

/// Status code of a temporary redirect.
pub const STATUS_TEMPORARY: u16 = 302;

/// Whether a mapping without an explicit permanence flag is permanent.
pub open spec fn spec_default_permanent() -> bool {
    false
}

/// The permanence flag of a mapping that does not state one: temporary.
pub fn default_permanent() -> (permanent: bool)
    ensures
        permanent == spec_default_permanent(),
{
    false
}

/// The target of a short name: where it leads, and whether the redirect is
/// permanent.
#[derive(Debug, PartialEq, Eq)]
pub struct Url {
    pub url: String,
    pub permanent: bool,
}

/// Mathematical value of a [`Url`].
pub struct UrlView {
    pub url: Seq<char>,
    pub permanent: bool,
}

impl View for Url {
    type V = UrlView;

    open spec fn view(&self) -> UrlView {
        UrlView { url: self.url@, permanent: self.permanent }
    }
}

/// An HTTP redirect: a status code and the location to go to.
#[derive(Debug, PartialEq, Eq)]
pub struct Redirection {
    pub status: u16,
    pub location: String,
}

/// Mathematical value of a [`Redirection`].
pub struct RedirectionView {
    pub status: int,
    pub location: Seq<char>,
}

impl View for Redirection {
    type V = RedirectionView;

    open spec fn view(&self) -> RedirectionView {
        RedirectionView { status: self.status as int, location: self.location@ }
    }
}

/// The redirect that a mapping stands for: permanent mappings answer with
/// 301, all others with 302, and the location is the mapping's target.
pub open spec fn spec_resolve(mapping: UrlView) -> RedirectionView {
    RedirectionView {
        status: if mapping.permanent { 301 } else { 302 },
        location: mapping.url,
    }
}

impl Clone for Url {
    fn clone(&self) -> (copy: Self)
        ensures
            copy@ == self@,
    {
        Url { url: self.url.clone(), permanent: self.permanent }
    }
}

impl Url {
    /// A mapping to `url`; `permanent` chooses the kind of redirect.
    pub fn new(url: String, permanent: bool) -> (mapping: Self)
        ensures
            mapping@ == (UrlView { url: url@, permanent }),
    {
        Url { url, permanent }
    }

    /// Turns the mapping into the redirect it stands for.
    pub fn resolve(&self) -> (redirect: Redirection)
        ensures
            redirect@ == spec_resolve(self@),
    {
        let status: u16 = if self.permanent { STATUS_PERMANENT } else { STATUS_TEMPORARY };
        Redirection { status, location: self.url.clone() }
    }
}

} // verus!
