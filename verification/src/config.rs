//! The settings of a run.

use vstd::prelude::*;

verus! {

/// The settings of a run: whether to look for resolvers defined by hand,
/// where to look, and whether to report what is found.
#[derive(Debug)]
pub struct Config {
    /// Whether directories are scanned for resolvers defined by hand.
    pub auto_scan: bool,
    /// The directories to scan, relative to the root of the project.
    pub scan_dirs: Vec<String>,
    /// Whether the scan reports what it does.
    pub verbose: bool,
}

/// The value of a setting that is on unless it is switched off.
pub fn default_true() -> (r: bool)
    ensures
        r,
{
    true
}

impl Default for Config {
    /// Scanning is on, no directory is named, and nothing is reported.
    fn default() -> (r: Self)
        ensures
            r.auto_scan,
            r.scan_dirs@.len() == 0,
            !r.verbose,
    {
        Config { auto_scan: default_true(), scan_dirs: Vec::new(), verbose: false }
    }
}

} // verus!
