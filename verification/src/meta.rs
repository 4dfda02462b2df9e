//! The metadata prober: which capability request to issue, and what a
//! response's headers say about filename, total size, range support and
//! cache validators.

use vstd::prelude::*;
use crate::headers::Headers;
use crate::headers::spec_lookup;
use crate::text::spec_trim;
use crate::text::spec_trim_pred;
use crate::text::spec_parse_u64;
use crate::text::spec_rfind;
use crate::text::spec_contains_bytes;
use crate::text::trim_by;
use crate::text::parse_u64;
use crate::text::rfind_char;
use crate::text::contains_bytes_token;
use vstd::string::StrSliceExecFns;
use vstd::string::StringExecFns;

verus! {

/// How the prober's capability request is chosen.
#[derive(Clone, Copy, Debug)]
pub enum ProbeMode {
    /// Try the header-only request; on failure or a non-2xx status, fall
    /// back to a GET asking for the single byte `bytes=0-0`.
    Auto,
    /// Force the header-only request.
    Head,
    /// Force the single-byte ranged GET.
    GetRange0,
}

/// The prober's output: everything the executor needs to resume.
pub struct MetaInfo {
    /// The URL after following redirects.
    pub final_url: String,
    /// Status of the final response.
    pub status: u16,
    /// The final response's headers, kept for diagnostics.
    pub headers: Headers,
    /// Inferred local filename; never empty.
    pub filename: String,
    /// Total resource length, when disclosed.
    pub size: Option<u64>,
    /// True only when `Accept-Ranges` explicitly names `bytes`.
    pub accept_ranges: bool,
    /// Entity-tag validator, when present.
    pub etag: Option<String>,
    /// Last-modified validator, when present.
    pub last_modified: Option<String>,
}

/// Whether the probe's first attempt is the header-only request.
pub fn probe_starts_with_head(mode: ProbeMode) -> (r: bool)
    ensures
        r == (mode is Auto || mode is Head),
{
    match mode {
        ProbeMode::Auto => true,
        ProbeMode::Head => true,
        ProbeMode::GetRange0 => false,
    }
}

/// Whether the header-only attempt's outcome sends the probe to the ranged
/// GET fallback: only in the automatic mode, and only when the attempt
/// failed outright or answered outside the 2xx range.
pub fn probe_falls_back(mode: ProbeMode, head_ok: bool, status: u16) -> (r: bool)
    ensures
        r == (mode is Auto && !(head_ok && 200 <= status < 300)),
{
    match mode {
        ProbeMode::Auto => !(head_ok && 200 <= status && status < 300),
        ProbeMode::Head => false,
        ProbeMode::GetRange0 => false,
    }
}

/// What `content_disposition::parse_content_disposition` extracts as the
/// header's `filename` parameter: a function of the header text alone.
pub uninterp spec fn cd_filename_of(header: Seq<char>) -> Option<Seq<char>>;

/// Relies on `content_disposition::parse_content_disposition` and
/// `ParsedContentDisposition::filename_full` for the `filename` parameter of
/// a `Content-Disposition` value (the parser strips one pair of enclosing
/// quotes; the caller trims further).
#[verifier::external_body]
fn cd_filename_full(header: &str) -> (r: Option<String>)
    ensures
        r.deep_view() == cd_filename_of(header@),
{
    content_disposition::parse_content_disposition(header).filename_full()
}

/// What `url::Url::parse` followed by `Url::path_segments` yields: the
/// `/`-separated, percent-encoded path segments of the parsed URL, `None`
/// when the text does not parse as an absolute URL or the URL cannot carry
/// segments. A function of the URL text alone.
pub uninterp spec fn url_path_segments_of(url: Seq<char>) -> Option<Seq<Seq<char>>>;

/// Relies on `url::Url::parse` and `Url::path_segments`.
#[verifier::external_body]
fn url_path_segments(url: &str) -> (r: Option<Vec<String>>)
    ensures
        r.deep_view() == url_path_segments_of(url@),
{
    match url::Url::parse(url) {
        Ok(u) => u.path_segments().map(|it| it.map(|s| s.to_string()).collect()),
        Err(_) => None,
    }
}

/// The last non-empty entry, scanning from the end.
pub open spec fn spec_last_nonempty(segs: Seq<Seq<char>>) -> Option<Seq<char>>
    decreases segs.len(),
{
    if segs.len() == 0 {
        None
    } else if segs.last().len() > 0 {
        Some(segs.last())
    } else {
        spec_last_nonempty(segs.drop_last())
    }
}

proof fn lemma_last_nonempty_at(segs: Seq<Seq<char>>, i: int)
    requires
        0 <= i < segs.len(),
        segs[i].len() > 0,
        forall|j: int| i < j < segs.len() ==> (#[trigger] segs[j]).len() == 0,
    ensures
        spec_last_nonempty(segs) == Some(segs[i]),
    decreases segs.len(),
{
    if i < segs.len() - 1 {
        lemma_last_nonempty_at(segs.drop_last(), i);
    }
}

proof fn lemma_last_nonempty_none(segs: Seq<Seq<char>>)
    requires
        forall|j: int| 0 <= j < segs.len() ==> (#[trigger] segs[j]).len() == 0,
    ensures
        spec_last_nonempty(segs) is None,
    decreases segs.len(),
{
    if segs.len() > 0 {
        lemma_last_nonempty_none(segs.drop_last());
    }
}

/// The filename a URL yields: its last non-empty path segment, or the
/// generic fallback name.
pub open spec fn spec_url_filename(url: Seq<char>) -> Seq<char> {
    match url_path_segments_of(url) {
        Some(segs) => match spec_last_nonempty(segs) {
            Some(s) => s,
            None => "download.bin"@,
        },
        None => "download.bin"@,
    }
}

/// The name a `Content-Disposition` value contributes: its `filename`
/// parameter trimmed of surrounding whitespace and double quotes, unless
/// that leaves nothing.
pub open spec fn spec_cd_name(v: Seq<char>) -> Option<Seq<char>> {
    match cd_filename_of(v) {
        Some(f) => {
            let t = spec_trim(spec_trim(f, spec_trim_pred(false)), spec_trim_pred(true));
            if t.len() > 0 {
                Some(t)
            } else {
                None
            }
        },
        None => None,
    }
}

/// Filename inference, in fixed order: the `Content-Disposition` filename
/// parameter when it trims to something non-empty, else the URL's last
/// non-empty path segment, else the generic fallback. Header-provided names
/// take precedence over URL-derived ones.
pub open spec fn spec_infer_filename(
    url: Seq<char>,
    headers: Seq<(Seq<char>, Seq<char>)>,
) -> Seq<char> {
    match spec_lookup(headers, "content-disposition"@) {
        Some(v) => match spec_cd_name(v) {
            Some(t) => t,
            None => spec_url_filename(url),
        },
        None => spec_url_filename(url),
    }
}

fn url_filename(url: &str) -> (r: String)
    ensures
        r@ == spec_url_filename(url@),
{
    match url_path_segments(url) {
        Some(segs) => {
            let n = segs.len();
            let mut i: usize = n;
            while i > 0
                invariant
                    0 <= i <= n,
                    n == segs@.len(),
                    url_path_segments_of(url@) == Some(segs.deep_view()),
                    forall|j: int| i <= j < n ==> segs.deep_view()[j].len() == 0,
                decreases i,
            {
                i = i - 1;
                if segs[i].as_str().unicode_len() > 0 {
                    proof {
                        lemma_last_nonempty_at(segs.deep_view(), i as int);
                    }
                    return segs[i].clone();
                }
            }
            proof {
                lemma_last_nonempty_none(segs.deep_view());
            }
            String::from_str("download.bin")
        },
        None => String::from_str("download.bin"),
    }
}

/// Infer the local filename for a resource, from its headers first, its
/// final URL second, with a generic fallback.
pub fn infer_filename(url: &str, headers: &Headers) -> (r: String)
    ensures
        r@ == spec_infer_filename(url@, headers@),
{
    match headers.get("content-disposition") {
        Some(v) => match cd_filename_full(v.as_str()) {
            Some(f) => {
                let t = trim_by(trim_by(f.as_str(), false).as_str(), true);
                if t.as_str().unicode_len() > 0 {
                    t
                } else {
                    url_filename(url)
                }
            },
            None => url_filename(url),
        },
        None => url_filename(url),
    }
}

/// The total a `Content-Range` value carries after its last `/` (the whole
/// value when it has no `/`), when that parses as a number.
pub open spec fn spec_content_range_total(v: Seq<char>) -> Option<u64> {
    spec_parse_u64(v.skip(spec_rfind(v, '/') + 1))
}

/// Size inference, in fixed order: `Content-Length` as a number, else the
/// total after the `/` of `Content-Range`, else unknown.
pub open spec fn spec_parse_size(headers: Seq<(Seq<char>, Seq<char>)>) -> Option<u64> {
    let from_cr = match spec_lookup(headers, "content-range"@) {
        Some(cr) => spec_content_range_total(cr),
        None => None,
    };
    match spec_lookup(headers, "content-length"@) {
        Some(v) => match spec_parse_u64(v) {
            Some(n) => Some(n),
            None => from_cr,
        },
        None => from_cr,
    }
}

/// Read the resource's total size out of the headers.
pub fn parse_size(headers: &Headers) -> (r: Option<u64>)
    ensures
        r == spec_parse_size(headers@),
{
    match headers.get("content-length") {
        Some(v) => match parse_u64(v.as_str()) {
            Some(n) => {
                return Some(n);
            },
            None => {},
        },
        None => {},
    }
    match headers.get("content-range") {
        Some(cr) => {
            let s = cr.as_str();
            let len = s.unicode_len();
            match rfind_char(s, '/') {
                Some(i) => {
                    let tail = s.substring_char(i + 1, len);
                    proof {
                        assert(tail@ =~= s@.skip(spec_rfind(s@, '/') + 1));
                    }
                    parse_u64(tail)
                },
                None => {
                    proof {
                        assert(s@ =~= s@.skip(spec_rfind(s@, '/') + 1));
                    }
                    parse_u64(s)
                },
            }
        },
        None => None,
    }
}

/// Range support: true exactly when an `Accept-Ranges` header's value
/// contains the token `bytes` in any ASCII casing; absence means false —
/// support is never inferred from a successful partial response.
pub open spec fn spec_supports_range(headers: Seq<(Seq<char>, Seq<char>)>) -> bool {
    match spec_lookup(headers, "accept-ranges"@) {
        Some(v) => spec_contains_bytes(v),
        None => false,
    }
}

/// Whether the headers explicitly advertise byte-range support.
pub fn supports_range(headers: &Headers) -> (r: bool)
    ensures
        r == spec_supports_range(headers@),
{
    match headers.get("accept-ranges") {
        Some(v) => contains_bytes_token(v.as_str()),
        None => false,
    }
}

fn lookup_cloned(headers: &Headers, name: &str) -> (r: Option<String>)
    ensures
        r.deep_view() == spec_lookup(headers@, name@),
{
    match headers.get(name) {
        Some(v) => Some(v.clone()),
        None => None,
    }
}

/// Assemble the prober's output from the final response's plain parts: the
/// URL it ended at, its status, and its headers.
pub fn meta_from_response(final_url: String, status: u16, headers: Headers) -> (m: MetaInfo)
    ensures
        m.final_url == final_url,
        m.status == status,
        m.headers@ == headers@,
        m.filename@ == spec_infer_filename(final_url@, headers@),
        m.size == spec_parse_size(headers@),
        m.accept_ranges == spec_supports_range(headers@),
        m.etag.deep_view() == spec_lookup(headers@, "etag"@),
        m.last_modified.deep_view() == spec_lookup(headers@, "last-modified"@),
{
    let filename = infer_filename(final_url.as_str(), &headers);
    let size = parse_size(&headers);
    let accept_ranges = supports_range(&headers);
    let etag = lookup_cloned(&headers, "etag");
    let last_modified = lookup_cloned(&headers, "last-modified");
    MetaInfo { final_url, status, headers, filename, size, accept_ranges, etag, last_modified }
}

} // verus!
