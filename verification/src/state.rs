//! The persisted resume-state record. The executor itself neither reads nor
//! writes it; it is kept for the surrounding code, which stores it beside
//! the download under the name `state_path` gives.

use vstd::prelude::*;
use vstd::string::StringExecFns;

verus! {

/// A download's resume state, as persisted beside the file.
#[derive(Debug)]
pub struct DlState {
    pub url: String,
    pub filename: String,
    pub total: Option<u64>,
    pub written: u64,
    pub etag: Option<String>,
    pub last_modified: Option<String>,
}

/// The sidecar path for a download: the filename with `.state` appended.
pub fn state_path(filename: &str) -> (r: String)
    ensures
        r@ == filename@ + ".state"@,
{
    String::from_str(filename).concat(".state")
}

} // verus!
