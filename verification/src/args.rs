//! The command-line arguments of an instance.

use vstd::prelude::*;
use vstd::string::StringExecFns;

verus! {

/// Where the configuration file is looked for when no path is given.
pub open spec fn spec_default_config_path() -> Seq<char> {
    "/etc/shlonk/config.yml"@
}

/// Where the configuration file is looked for when no path is given.
pub fn default_config_path() -> (path: &'static str)
    ensures
        path@ == spec_default_config_path(),
{
    "/etc/shlonk/config.yml"
}

/// The arguments an instance is started with.
#[derive(Debug)]
pub struct Args {
    /// Path of the configuration file.
    pub config: String,
    /// Port to listen on, in place of the configured one.
    pub port: Option<u16>,
}

/// The port to listen on: the one given on the command line if there is
/// one, else the configured one.
pub open spec fn spec_listen_port(given: Option<u16>, configured: u16) -> u16 {
    match given {
        Some(port) => port,
        None => configured,
    }
}

impl Args {
    /// The arguments of an instance started without any.
    pub fn new() -> (args: Self)
        ensures
            args.config@ == spec_default_config_path(),
            args.port is None,
    {
        Args { config: String::from_str(default_config_path()), port: None }
    }

    /// The port to listen on, given the configured one.
    pub fn listen_port(&self, configured: u16) -> (port: u16)
        ensures
            port == spec_listen_port(self.port, configured),
    {
        match self.port {
            Some(port) => port,
            None => configured,
        }
    }
}

} // verus!
