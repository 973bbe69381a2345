//! The persisted state of an instance: its settings and the list of its
//! mappings, as they stand in the configuration file.

use vstd::prelude::*;
use vstd::string::StringExecFns;
use crate::mapping::Url;
use crate::listing::{find_name, has_name, listing, Listing};
use crate::text::opt_string_view;

verus! {

/// The port an instance listens on when its configuration names none.
pub open spec fn spec_default_port() -> u16 {
    8080
}

/// The port an instance listens on when its configuration names none.
pub fn default_port() -> (port: u16)
    ensures
        port == spec_default_port(),
{
    8080
}

/// The full content of a configuration file: the mappings by name, the port
/// to listen on, and the secret that authorizes changes, if one is set.
#[derive(Debug, PartialEq, Eq)]
pub struct Config {
    pub urls: Vec<(String, Url)>,
    pub port: u16,
    pub secret: Option<String>,
}

/// Mathematical value of a [`Config`].
pub struct ConfigView {
    pub urls: Listing,
    pub port: u16,
    pub secret: Option<Seq<char>>,
}

impl View for Config {
    type V = ConfigView;

    open spec fn view(&self) -> ConfigView {
        ConfigView {
            urls: listing(self.urls@),
            port: self.port,
            secret: opt_string_view(self.secret),
        }
    }
}

impl Config {
    /// A configuration without mappings and without a secret, on the
    /// default port.
    pub fn new() -> (config: Self)
        ensures
            config@.urls.len() == 0,
            config@.port == spec_default_port(),
            config@.secret is None,
    {
        Config { urls: Vec::new(), port: default_port(), secret: None }
    }

    /// The place of the first entry called `name`, if there is one.
    pub fn find(&self, name: &str) -> (found: Option<usize>)
        ensures
            match found {
                Some(i) => i < self@.urls.len() && self@.urls[i as int].0 == name@
                    && forall|j: int| 0 <= j < i ==> (#[trigger] self@.urls[j]).0 != name@,
                None => !has_name(self@.urls, name@),
            },
    {
        find_name(&self.urls, name)
    }
}

/// Why a configuration could not be taken into use.
#[derive(Debug, PartialEq, Eq)]
pub enum ConfigReadingError {
    /// The file could not be read; holds the reason.
    IoError(String),
    /// The file is not a well-formed configuration; holds the reason.
    YamlError(String),
    /// Two mappings go by the same name; holds that name.
    DuplicateName(String),
}

/// The text that describes a configuration error.
pub open spec fn spec_message(error: ConfigReadingError) -> Seq<char> {
    match error {
        ConfigReadingError::IoError(reason) => "IO error: "@ + reason@,
        ConfigReadingError::YamlError(reason) => "YAML error: "@ + reason@,
        ConfigReadingError::DuplicateName(name) => "duplicate name: "@ + name@,
    }
}

impl ConfigReadingError {
    /// Describes the error in a line of text.
    pub fn message(&self) -> (text: String)
        ensures
            text@ == spec_message(*self),
    {
        match self {
            ConfigReadingError::IoError(reason) => String::from_str("IO error: ").concat(
                reason.as_str(),
            ),
            ConfigReadingError::YamlError(reason) => String::from_str("YAML error: ").concat(
                reason.as_str(),
            ),
            ConfigReadingError::DuplicateName(name) => String::from_str("duplicate name: ").concat(
                name.as_str(),
            ),
        }
    }
}

} // verus!
