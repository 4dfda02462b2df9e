//! Normalization of known wrapper URLs to their real target. The one
//! recognized wrapper is `href.li`, which carries the target in its query,
//! raw or percent-encoded.

use vstd::prelude::*;
use crate::text::spec_lower_seq;
use crate::text::spec_starts_with;
use crate::text::ascii_eq_ignore_case;
use crate::text::str_starts_with;
use vstd::string::StringExecFns;

verus! {

/// Host and query of a parsed URL.
pub struct UrlParts {
    pub host: Option<String>,
    pub query: Option<String>,
}

/// What `url::Url::parse` yields of a text's host and query — `None` when
/// the text does not parse as an absolute URL. A function of the text alone.
pub uninterp spec fn url_parts_of(s: Seq<char>) -> Option<(Option<Seq<char>>, Option<Seq<char>>)>;

/// Relies on `url::Url::parse`, `Url::host_str` and `Url::query`.
#[verifier::external_body]
fn parse_url_parts(s: &str) -> (r: Option<UrlParts>)
    ensures
        r matches Some(p) ==> url_parts_of(s@) == Some((p.host.deep_view(), p.query.deep_view())),
        r is None ==> url_parts_of(s@) is None,
{
    match url::Url::parse(s) {
        Ok(u) => Some(UrlParts {
            host: u.host_str().map(|h| h.to_string()),
            query: u.query().map(|q| q.to_string()),
        }),
        Err(_) => None,
    }
}

/// What `percent_encoding::percent_decode_str` followed by a lossy UTF-8
/// decode yields. A function of the text alone.
pub uninterp spec fn percent_decoded_of(s: Seq<char>) -> Seq<char>;

/// Relies on `percent_encoding::percent_decode_str` and
/// `PercentDecode::decode_utf8_lossy`.
#[verifier::external_body]
fn percent_decode_lossy(s: &str) -> (r: String)
    ensures
        r@ == percent_decoded_of(s@),
{
    percent_encoding::percent_decode_str(s).decode_utf8_lossy().to_string()
}

/// The target a wrapper's query names: itself when it already starts with a
/// scheme, else its percent-decoded form.
pub open spec fn spec_candidate(q: Seq<char>) -> Seq<char> {
    if spec_starts_with(q, "http://"@) || spec_starts_with(q, "https://"@) {
        q
    } else {
        percent_decoded_of(q)
    }
}

/// What URL normalization returns: for a URL whose host is `href.li` in any
/// ASCII casing and whose query resolves to a parseable URL, that target;
/// anything else is returned unchanged.
pub open spec fn spec_normalize_url(input: Seq<char>) -> Seq<char> {
    match url_parts_of(input) {
        Some(parts) => match parts.0 {
            Some(h) => if spec_lower_seq(h) == spec_lower_seq("href.li"@) {
                match parts.1 {
                    Some(q) => if url_parts_of(spec_candidate(q)) is Some {
                        spec_candidate(q)
                    } else {
                        input
                    },
                    None => input,
                }
            } else {
                input
            },
            None => input,
        },
        None => input,
    }
}

/// Normalize a known wrapper URL to the real target it carries; any other
/// text comes back unchanged.
pub fn normalize_url(input: &str) -> (r: String)
    ensures
        r@ == spec_normalize_url(input@),
{
    match parse_url_parts(input) {
        Some(p) => {
            let host_is_wrapper = match &p.host {
                Some(h) => ascii_eq_ignore_case(h.as_str(), "href.li"),
                None => false,
            };
            if host_is_wrapper {
                match &p.query {
                    Some(q) => {
                        let candidate = if str_starts_with(q.as_str(), "http://")
                            || str_starts_with(q.as_str(), "https://") {
                            q.clone()
                        } else {
                            percent_decode_lossy(q.as_str())
                        };
                        if parse_url_parts(candidate.as_str()).is_some() {
                            candidate
                        } else {
                            input.to_owned()
                        }
                    },
                    None => input.to_owned(),
                }
            } else {
                input.to_owned()
            }
        },
        None => input.to_owned(),
    }
}

} // verus!
