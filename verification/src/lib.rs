//! Resume-aware single-stream HTTP download engine.
//!
//! The crate holds the verified core of a download manager: the metadata
//! prober's header parsing (filename, size, range support, validators), the
//! resume executor's decision machine (offset reconciliation, request
//! construction, response classification, the one-shot 416 backoff and the
//! one-shot restart, byte-accurate chunk placement), and the small pure
//! helpers around them (URL normalization, config defaults, size formatting).
//! Network and file I/O live outside the crate; callers drive the decision
//! machine and perform the requests and writes it asks for.

pub mod config;
pub mod error;
pub mod executor;
pub mod format;
pub mod headers;
pub mod meta;
pub mod state;
pub mod text;
pub mod types;
pub mod urlnorm;
