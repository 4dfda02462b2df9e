//! Shared plain data types of the engine.

use vstd::prelude::*;

verus! {

/// A probe's distilled result, as the executor consumes it.
#[derive(Debug, Clone)]
pub struct Meta {
    pub filename: String,
    pub size: Option<u64>,
    pub accept_ranges: bool,
    pub etag: Option<String>,
    pub last_modified: Option<String>,
    pub content_type: Option<String>,
}

/// A byte range request; `end` is inclusive.
#[derive(Debug, Clone, Copy)]
pub struct RangeReq {
    pub start: u64,
    pub end: u64,
}

/// Identifier of one logical transfer.
#[derive(Debug, Clone, Copy, PartialEq, Eq, Hash, Structural)]
pub struct JobId(pub u64);

/// Where a download lands: directory, final name, and in-progress name.
#[derive(Debug, Clone)]
pub struct PathPlan {
    pub dir: String,
    pub final_name: String,
    pub temp_name: String,
}

/// Explicit client configuration: headers, redirect cap, and timeouts. No
/// ambient client state exists; whoever builds a client is handed all of it.
#[derive(Debug, Clone)]
pub struct ClientOpts {
    pub referer: Option<String>,
    pub cookie: Option<String>,
    pub ua: Option<String>,
    pub extra_headers: Vec<(String, String)>,
    pub max_redirects: usize,
    pub conn_timeout_secs: u64,
    pub req_timeout_secs: u64,
}

/// The command line's plain content.
#[derive(Debug)]
pub struct Args {
    pub url: String,
    pub referer: Option<String>,
    pub headers: Vec<String>,
    pub cookie: Option<String>,
    pub ua: Option<String>,
}

} // verus!
