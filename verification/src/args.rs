//! The server's command-line arguments.

use vstd::prelude::*;

verus! {

/// The command line of the server: the configuration path (by default
/// `idola.toml`) and whether to print the version.
#[derive(Clone, Debug)]
pub struct Args {
    pub flag_config: String,
    pub flag_version: bool,
}

} // verus!
