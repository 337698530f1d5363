//! The configuration that the program is started with.

use vstd::prelude::*;
use vstd::string::*;

verus! {

/// The directory that holds the index and the state store.
#[derive(Debug)]
pub struct Cli {
    pub path: String,
}

impl Default for Cli {
    /// The directory that is used where none is given.
    fn default() -> (cli: Cli)
        ensures
            cli.path@ == "D:\\tmp"@,
    {
        Cli { path: String::from_str("D:\\tmp") }
    }
}

} // verus!
