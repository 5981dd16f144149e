//! The remote HTTP sink's decisions: which base endpoint to use, which
//! paths insert and flush post to, and what a response status means. The
//! request itself is I/O and lives with the driver.
use vstd::prelude::*;

use crate::error::ExportError;
use crate::txt::{int_text, int_text_spec};

verus! {

/// The scheme of a parseable URL, or nothing when the text is no URL. A
/// fixed grammar decides this, so the result is a function of the text
/// alone.
pub uninterp spec fn url_scheme(s: Seq<char>) -> Option<Seq<char>>;

/// Relies on `url::Url::parse` and `Url::scheme`: the scheme of the parsed
/// URL, or nothing when parsing fails.
#[verifier::external_body]
fn parse_url_scheme(s: &str) -> (r: Option<String>)
    ensures
        match r {
            Some(sc) => url_scheme(s@) == Some(sc@),
            None => url_scheme(s@) is None,
        },
{
    url::Url::parse(s).ok().map(|u| u.scheme().to_string())
}

/// The endpoint used when the configured value is no secure URL.
pub open spec fn default_endpoint_spec() -> Seq<char> {
    "https://localhost:3000"@
}

/// The base endpoint the sink posts to: the configured value when it parses
/// as a URL with the secure scheme, the fixed local endpoint otherwise —
/// also when nothing is configured at all.
pub open spec fn base_url_spec(configured: Option<String>) -> Seq<char> {
    match configured {
        Some(path) => if url_scheme(path@) == Some("https"@) {
            path@
        } else {
            default_endpoint_spec()
        },
        None => default_endpoint_spec(),
    }
}

/// Resolve the base endpoint from the configured value.
pub fn resolve_base_url(configured: Option<String>) -> (r: String)
    ensures
        r@ == base_url_spec(configured),
{
    match configured {
        Some(path) => {
            let https = String::from_str("https");
            match parse_url_scheme(path.as_str()) {
                Some(scheme) => {
                    if scheme.eq(&https) {
                        path
                    } else {
                        String::from_str("https://localhost:3000")
                    }
                },
                None => String::from_str("https://localhost:3000"),
            }
        },
        None => String::from_str("https://localhost:3000"),
    }
}

/// The path a batch insert posts to.
pub fn insert_url(base: &str) -> (r: String)
    ensures
        r@ == base@ + "/insert"@,
{
    let mut out = base.to_owned();
    out.append("/insert");
    out
}

/// The path the commit signal posts to.
pub fn flush_url(base: &str) -> (r: String)
    ensures
        r@ == base@ + "/flush"@,
{
    let mut out = base.to_owned();
    out.append("/flush");
    out
}

/// True exactly for the success status range of a response.
pub open spec fn status_ok_spec(status: int) -> bool {
    200 <= status < 300
}

/// The diagnostic text of a failed batch: the status and the response body.
pub open spec fn status_error_text_spec(status: int, body: Seq<char>) -> Seq<char> {
    "HTTP error "@ + int_text_spec(status) + ": "@ + body
}

/// Judge one response to a batch insert or a flush: any non-success status
/// is a hard error carrying the response body as diagnostic text.
pub fn response_outcome(status: u16, body: &str) -> (r: Result<(), ExportError>)
    ensures
        r is Ok <==> status_ok_spec(status as int),
        match r {
            Ok(_) => true,
            Err(e) => e is SinkTransport && e.text_spec() == status_error_text_spec(
                status as int,
                body@,
            ),
        },
{
    if 200 <= status && status < 300 {
        Ok(())
    } else {
        let mut text = String::from_str("HTTP error ");
        let digits = int_text(status as i64);
        text.append(digits.as_str());
        text.append(": ");
        text.append(body);
        proof {
            assert(text@ =~= status_error_text_spec(status as int, body@));
        }
        Err(ExportError::SinkTransport(text))
    }
}

} // verus!
