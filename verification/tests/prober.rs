//! Tests of the metadata prober: filename, size, range support, probe mode.

use tondar_dm::headers::Headers;
use tondar_dm::meta::{infer_filename, meta_from_response, parse_size, probe_falls_back,
    probe_starts_with_head, supports_range, ProbeMode};

fn headers_of(pairs: &[(&str, &str)]) -> Headers {
    Headers {
        entries: pairs.iter().map(|(k, v)| (k.to_string(), v.to_string())).collect(),
    }
}

/// Filename inference from the URL: the last non-empty path segment.
#[test]
fn filename_from_url_path() {
    let h = headers_of(&[]);
    assert_eq!(infer_filename("https://example.com/a/b/report.pdf", &h), "report.pdf");
}

/// A header-provided name takes precedence over the URL-derived one.
#[test]
fn filename_from_content_disposition() {
    let h = headers_of(&[("content-disposition", "attachment; filename=\"x.zip\"")]);
    assert_eq!(infer_filename("https://example.com/a/b/report.pdf", &h), "x.zip");
}

/// A disposition without a usable filename falls back to the URL.
#[test]
fn filename_falls_back_past_empty_disposition() {
    let h = headers_of(&[("content-disposition", "attachment; filename=\"  \"")]);
    assert_eq!(infer_filename("https://example.com/a/b/report.pdf", &h), "report.pdf");
    let inline = headers_of(&[("content-disposition", "inline")]);
    assert_eq!(infer_filename("https://example.com/a/b/report.pdf", &inline), "report.pdf");
}

/// A trailing slash leaves an empty last segment; the last non-empty one
/// wins, and a URL without any yields the generic name.
#[test]
fn filename_skips_empty_segments() {
    let h = headers_of(&[]);
    assert_eq!(infer_filename("https://example.com/a/b/", &h), "b");
    assert_eq!(infer_filename("https://example.com", &h), "download.bin");
    assert_eq!(infer_filename("not a url at all", &h), "download.bin");
}

/// Size comes from `Content-Length` first.
#[test]
fn size_from_content_length() {
    let h = headers_of(&[("content-length", "1234")]);
    assert_eq!(parse_size(&h), Some(1234));
    let plus = headers_of(&[("content-length", "+42")]);
    assert_eq!(parse_size(&plus), Some(42));
}

/// Without a usable `Content-Length`, the total after the `/` of
/// `Content-Range` is used.
#[test]
fn size_from_content_range_total() {
    let h = headers_of(&[("content-range", "bytes 0-0/5000")]);
    assert_eq!(parse_size(&h), Some(5000));
    let bad_cl = headers_of(&[("content-length", "12x"), ("content-range", "bytes 0-0/77")]);
    assert_eq!(parse_size(&bad_cl), Some(77));
    let none = headers_of(&[("content-range", "bytes */x")]);
    assert_eq!(parse_size(&none), None);
    assert_eq!(parse_size(&headers_of(&[])), None);
}

/// A value past `u64::MAX` is not a size.
#[test]
fn size_overflow_is_rejected() {
    let h = headers_of(&[("content-length", "99999999999999999999")]);
    assert_eq!(parse_size(&h), None);
    let max = headers_of(&[("content-length", "18446744073709551615")]);
    assert_eq!(parse_size(&max), Some(u64::MAX));
}

/// Range support comes only from an explicit `Accept-Ranges: bytes`, in any
/// ASCII casing; absence or `none` means unsupported.
#[test]
fn range_support_detection() {
    assert!(supports_range(&headers_of(&[("accept-ranges", "bytes")])));
    assert!(supports_range(&headers_of(&[("Accept-Ranges", "BYTES")])));
    assert!(supports_range(&headers_of(&[("accept-ranges", "none, Bytes")])));
    assert!(!supports_range(&headers_of(&[("accept-ranges", "none")])));
    assert!(!supports_range(&headers_of(&[])));
}

/// Header lookup is case-insensitive and takes the first match.
#[test]
fn header_lookup_is_case_insensitive() {
    let h = headers_of(&[("Content-Length", "10"), ("content-length", "20")]);
    assert_eq!(h.get("CONTENT-LENGTH").map(|s| s.as_str()), Some("10"));
    assert_eq!(h.get("missing"), None);
}

/// The assembled metadata reflects every header-derived field.
#[test]
fn meta_assembly() {
    let h = headers_of(&[
        ("content-length", "2048"),
        ("accept-ranges", "bytes"),
        ("etag", "\"v1\""),
        ("last-modified", "Mon, 01 Jan 2024 00:00:00 GMT"),
    ]);
    let m = meta_from_response("https://example.com/d/file.bin".to_string(), 200, h);
    assert_eq!(m.final_url, "https://example.com/d/file.bin");
    assert_eq!(m.status, 200);
    assert_eq!(m.filename, "file.bin");
    assert_eq!(m.size, Some(2048));
    assert!(m.accept_ranges);
    assert_eq!(m.etag.as_deref(), Some("\"v1\""));
    assert_eq!(m.last_modified.as_deref(), Some("Mon, 01 Jan 2024 00:00:00 GMT"));
}

/// Mode decides the first request; only the automatic mode falls back, and
/// only on a failed or non-2xx header-only attempt.
#[test]
fn probe_mode_decisions() {
    assert!(probe_starts_with_head(ProbeMode::Auto));
    assert!(probe_starts_with_head(ProbeMode::Head));
    assert!(!probe_starts_with_head(ProbeMode::GetRange0));
    assert!(probe_falls_back(ProbeMode::Auto, false, 0));
    assert!(probe_falls_back(ProbeMode::Auto, true, 404));
    assert!(!probe_falls_back(ProbeMode::Auto, true, 200));
    assert!(!probe_falls_back(ProbeMode::Auto, true, 299));
    assert!(!probe_falls_back(ProbeMode::Head, false, 500));
    assert!(!probe_falls_back(ProbeMode::GetRange0, true, 404));
}
