//! The parts of a URL the shell decides on, as parsed by the `url` crate.
use vstd::prelude::*;

verus! {

/// Scheme, host and explicit port of a parsed absolute URL.
pub struct UrlParts {
    /// Lower-cased scheme, without the `:`.
    pub scheme: String,
    /// Host as serialized by the parser (IPv6 inside `[` `]`), if the URL has one.
    pub host: Option<String>,
    /// Port, when the URL names one that is not its scheme's default.
    pub port: Option<u16>,
}

/// Views of the parts of a parsed URL.
pub open spec fn parts_view(p: UrlParts) -> (Seq<char>, Option<Seq<char>>, Option<u16>) {
    (
        p.scheme@,
        match p.host {
            Some(h) => Some(h@),
            None => None,
        },
        p.port,
    )
}

/// Name for what `url::Url::parse` yields for `input`: `None` when it is
/// rejected, otherwise the scheme, host and port of the parsed URL.
pub uninterp spec fn url_parse_result(input: Seq<char>) -> Option<(Seq<char>, Option<Seq<char>>, Option<u16>)>;

/// `url::Url::parse(input)`, then its `scheme()`, `host_str()` and `port()`.
/// The result is named, not described: WHATWG URL parsing decides it.
#[verifier::external_body]
pub(crate) fn parse_url(input: &str) -> (r: Option<UrlParts>)
    ensures
        r is None <==> url_parse_result(input@) is None,
        r matches Some(p) ==> url_parse_result(input@) == Some(parts_view(p)),
{
    match url::Url::parse(input) {
        Ok(u) => Some(UrlParts {
            scheme: u.scheme().to_string(),
            host: u.host_str().map(|h| h.to_string()),
            port: u.port(),
        }),
        Err(_) => None,
    }
}

} // verus!
