//! The command-line arguments the dashboard accepts.
//!
//! Argument parsing happens outside the library; the parsed values are
//! carried in this plain form.

use vstd::prelude::*;

verus! {

/// The two arguments: the directory to scan for services and, optionally,
/// an explicit configuration file.
#[derive(Clone, Debug)]
pub struct Args {
    pub path: String,
    pub config: Option<String>,
}

impl Default for Args {
    /// Without arguments the current directory is scanned and the
    /// configuration file is resolved by its well-known names.
    fn default() -> (a: Args)
        ensures
            a.path@ == "."@,
            a.config is None,
    {
        Args { path: ".".to_owned(), config: None }
    }
}

} // verus!
