//! Engine configuration and its defaults. Reading and writing a
//! configuration file is the caller's business; the crate owns the values.

use vstd::prelude::*;
use vstd::string::StringExecFns;

verus! {

/// Tunables of the engine.
#[derive(Debug, Clone)]
pub struct Config {
    pub max_concurrent: usize,
    pub per_host_limit: usize,
    pub rate_limit_global: Option<String>,
    pub default_parts: usize,
    pub resume: bool,
    pub preallocate: bool,
    pub output_dir: String,
}

/// What the default configuration holds.
pub open spec fn spec_is_default_config(c: Config) -> bool {
    &&& c.max_concurrent == 3
    &&& c.per_host_limit == 2
    &&& c.rate_limit_global is None
    &&& c.default_parts == 4
    &&& c.resume
    &&& c.preallocate
    &&& c.output_dir@ == "./Downloads"@
}

/// The default configuration.
pub fn default_config() -> (c: Config)
    ensures
        spec_is_default_config(c),
{
    Config {
        max_concurrent: 3,
        per_host_limit: 2,
        rate_limit_global: None,
        default_parts: 4,
        resume: true,
        preallocate: true,
        output_dir: String::from_str("./Downloads"),
    }
}

} // verus!
