//! The arguments of the command line, once parsed.

use vstd::prelude::*;
use vstd::string::StringExecFns;

verus! {

/// Where the configuration is read from when no path is given.
pub open spec fn default_config_path() -> Seq<char> {
    "./takina.toml"@
}

/// The arguments of a run.
#[derive(Debug, Clone, PartialEq, Eq, Default)]
pub struct TakinaArgs {
    /// The path of the configuration file, if one was given.
    pub config: Option<String>,
    /// Only check that the configuration can be read and is valid.
    pub check: bool,
}

impl TakinaArgs {
    /// The path of the configuration file: the one given, or `./takina.toml`.
    pub fn config_path(&self) -> (r: String)
        ensures
            r@ == (match self.config {
                Some(path) => path@,
                None => default_config_path(),
            }),
    {
        match &self.config {
            Some(path) => path.clone(),
            None => String::from_str("./takina.toml"),
        }
    }
}

} // verus!
