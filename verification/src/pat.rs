//! The patch server program's command-line arguments.

use vstd::prelude::*;
use vstd::string::StringExecFns;

verus! {

/// The command line of the patch server: an optional configuration path
/// and whether to print the version.
#[derive(Clone, Debug)]
pub struct Args {
    pub arg_config: Option<String>,
    pub flag_version: bool,
}

impl Args {
    /// The configuration path: the one given, else `idola_pat.toml`.
    pub fn config(&self) -> (r: String)
        ensures
            self.arg_config matches Some(c) ==> r@ == c@,
            self.arg_config is None ==> r@ == "idola_pat.toml"@,
    {
        match &self.arg_config {
            Some(c) => c.clone(),
            None => String::from_str("idola_pat.toml"),
        }
    }
}

} // verus!
