//! Tests of URL normalization, text helpers, configuration and errors.

use tondar_dm::config::default_config;
use tondar_dm::error::DmError;
use tondar_dm::executor::range_header_value;
use tondar_dm::format::format_size;
use tondar_dm::headers::parse_extra_headers;
use tondar_dm::state::state_path;
use tondar_dm::text::{parse_u64, truncate};
use tondar_dm::urlnorm::normalize_url;

/// A wrapper URL with a raw target in its query is unwrapped.
#[test]
fn normalize_unwraps_raw_target() {
    assert_eq!(
        normalize_url("https://href.li/?https://example.com/file.bin"),
        "https://example.com/file.bin"
    );
    assert_eq!(
        normalize_url("https://HREF.LI/?https://example.com/file.bin"),
        "https://example.com/file.bin"
    );
}

/// A percent-encoded target is decoded before use.
#[test]
fn normalize_decodes_encoded_target() {
    assert_eq!(
        normalize_url("https://href.li/?https%3A%2F%2Fexample.com%2Ffile.bin"),
        "https://example.com/file.bin"
    );
}

/// Everything else comes back unchanged.
#[test]
fn normalize_leaves_other_urls_alone() {
    assert_eq!(
        normalize_url("https://example.com/?https://elsewhere.org/"),
        "https://example.com/?https://elsewhere.org/"
    );
    assert_eq!(normalize_url("https://href.li/"), "https://href.li/");
    assert_eq!(normalize_url("https://href.li/?not a url"), "https://href.li/?not a url");
    assert_eq!(normalize_url("no scheme here"), "no scheme here");
}

/// Number parsing follows `str::parse::<u64>`.
#[test]
fn parse_u64_accepts_what_std_does() {
    assert_eq!(parse_u64("0"), Some(0));
    assert_eq!(parse_u64("007"), Some(7));
    assert_eq!(parse_u64("+42"), Some(42));
    assert_eq!(parse_u64(""), None);
    assert_eq!(parse_u64("+"), None);
    assert_eq!(parse_u64("-1"), None);
    assert_eq!(parse_u64(" 5"), None);
    assert_eq!(parse_u64("18446744073709551615"), Some(u64::MAX));
    assert_eq!(parse_u64("18446744073709551616"), None);
}

/// Display truncation keeps short values and marks cut ones.
#[test]
fn truncate_for_display() {
    assert_eq!(truncate("hello", 10), "hello");
    assert_eq!(truncate("hello", 5), "hello");
    assert_eq!(truncate("hello world!", 5), "hell…");
    assert_eq!(truncate("abc", 0), "…");
}

/// Extra header lines split at the first colon, trimmed; lines without one
/// are dropped.
#[test]
fn extra_header_lines() {
    let lines = vec![
        "Accept: text/html".to_string(),
        "bad line".to_string(),
        " X-Key :  v:w ".to_string(),
    ];
    let parsed = parse_extra_headers(&lines);
    assert_eq!(
        parsed,
        vec![
            ("Accept".to_string(), "text/html".to_string()),
            ("X-Key".to_string(), "v:w".to_string()),
        ]
    );
}

/// The range header renders the offset in decimal.
#[test]
fn range_header_rendering() {
    assert_eq!(range_header_value(0), "bytes=0-");
    assert_eq!(range_header_value(750), "bytes=750-");
    assert_eq!(range_header_value(u64::MAX), "bytes=18446744073709551615-");
}

/// Sizes format with two decimals in the magnitude's unit, ties to even.
#[test]
fn format_size_units() {
    assert_eq!(format_size(0), "0.00 KB");
    assert_eq!(format_size(532), "0.52 KB");
    assert_eq!(format_size(128), "0.12 KB");
    assert_eq!(format_size(384), "0.38 KB");
    assert_eq!(format_size(1048575), "1024.00 KB");
    assert_eq!(format_size(1048576), "1.00 MB");
    assert_eq!(format_size(555555555), "529.82 MB");
    assert_eq!(format_size(1048576000), "0.98 GB");
    assert_eq!(format_size(5368709120), "5.00 GB");
}

/// The sidecar path appends `.state`.
#[test]
fn state_sidecar_path() {
    assert_eq!(state_path("a.bin"), "a.bin.state");
}

/// The default configuration's values.
#[test]
fn default_config_values() {
    let c = default_config();
    assert_eq!(c.max_concurrent, 3);
    assert_eq!(c.per_host_limit, 2);
    assert_eq!(c.rate_limit_global, None);
    assert_eq!(c.default_parts, 4);
    assert!(c.resume);
    assert!(c.preallocate);
    assert_eq!(c.output_dir, "./Downloads");
}

/// Each error kind names itself in its message.
#[test]
fn error_messages_name_their_kind() {
    assert_eq!(DmError::Network("refused".to_string()).message(), "Network error: refused");
    assert_eq!(DmError::HttpStatus("503".to_string()).message(), "HTTP status: 503");
    assert_eq!(DmError::Io("disk full".to_string()).message(), "IO: disk full");
    assert_eq!(DmError::Other("misc".to_string()).message(), "Other: misc");
}
