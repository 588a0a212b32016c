//! URL handling: parsing and joining through the `url` crate, resolution of a
//! request target (host, port, request line) and of link targets.

use vstd::prelude::*;
use vstd::utf8::encode_utf8;
use crate::protocol::ProtocolError;

verus! {

#[verifier::external_type_specification]
#[verifier::external_body]
pub struct ExUrl(url::Url);

/// Why a string is not a URL.
#[derive(Clone, Copy, PartialEq, Eq, Debug, Structural)]
pub enum UrlError {
    /// The string has no scheme and no base was given.
    RelativeWithoutBase,
    Invalid,
}

/// The serialization of the URL that a string parses to.
pub uninterp spec fn url_parse_of(s: Seq<char>) -> Result<Seq<char>, UrlError>;

/// The serialization of `input` resolved against the URL serialized as `base`.
pub uninterp spec fn url_join_of(base: Seq<char>, input: Seq<char>) -> Result<Seq<char>, UrlError>;

/// The characters before the first `:`; for a URL's serialization, its scheme.
pub open spec fn scheme_part(href: Seq<char>) -> Seq<char>
    decreases href.len(),
{
    if href.len() == 0 || href[0] == ':' { Seq::empty() } else { seq![href[0]] + scheme_part(href.drop_first()) }
}

/// The host of the URL serialized as `href`, if it has one.
pub uninterp spec fn url_host_of(href: Seq<char>) -> Option<Seq<char>>;

/// The explicit port of the URL serialized as `href`, if it has one.
pub uninterp spec fn url_port_of(href: Seq<char>) -> Option<u16>;

/// A parsed URL. Only the wrappers below build one, and they keep `href`
/// equal to the serialization of `url`.
struct ParsedUrl {
    url: url::Url,
    href: String,
}

impl ParsedUrl {
    closed spec fn href_spec(&self) -> Seq<char> {
        self.href@
    }

    /// The serialization of this URL.
    fn href(&self) -> (r: &String)
        ensures
            r@ == self.href_spec(),
    {
        &self.href
    }
}

/// Relies on `url::Url::parse` and `url::Url::as_str`: the serialization of
/// the parsed URL, or the kind of parse error.
#[verifier::external_body]
fn parse_url(s: &str) -> (r: Result<ParsedUrl, UrlError>)
    ensures
        match r {
            Ok(u) => url_parse_of(s@) == Ok::<Seq<char>, UrlError>(u.href_spec()),
            Err(e) => url_parse_of(s@) == Err::<Seq<char>, UrlError>(e),
        },
{
    match url::Url::parse(s) {
        Ok(u) => {
            let href = u.as_str().to_string();
            Ok(ParsedUrl { url: u, href })
        },
        Err(url::ParseError::RelativeUrlWithoutBase) => Err(UrlError::RelativeWithoutBase),
        Err(_) => Err(UrlError::Invalid),
    }
}

/// Relies on `url::Url::join` and `url::Url::as_str`: `input` resolved
/// against `base` by the standard reference-resolution rules.
#[verifier::external_body]
fn join_url(base: &ParsedUrl, input: &str) -> (r: Result<ParsedUrl, UrlError>)
    ensures
        match r {
            Ok(u) => url_join_of(base.href_spec(), input@) == Ok::<Seq<char>, UrlError>(u.href_spec()),
            Err(e) => url_join_of(base.href_spec(), input@) == Err::<Seq<char>, UrlError>(e),
        },
{
    match base.url.join(input) {
        Ok(u) => {
            let href = u.as_str().to_string();
            Ok(ParsedUrl { url: u, href })
        },
        Err(url::ParseError::RelativeUrlWithoutBase) => Err(UrlError::RelativeWithoutBase),
        Err(_) => Err(UrlError::Invalid),
    }
}

/// Relies on `url::Url::scheme`: the serialization starts with the scheme
/// and a `:`, and a scheme holds no `:`.
#[verifier::external_body]
fn url_scheme(u: &ParsedUrl) -> (r: String)
    ensures
        r@ == scheme_part(u.href_spec()),
{
    u.url.scheme().to_string()
}

/// Relies on `url::Url::host_str`.
#[verifier::external_body]
fn url_host(u: &ParsedUrl) -> (r: Option<String>)
    ensures
        match r {
            Some(h) => url_host_of(u.href_spec()) == Some(h@),
            None => url_host_of(u.href_spec()) is None,
        },
{
    u.url.host_str().map(|h| h.to_string())
}

/// Relies on `url::Url::port`.
#[verifier::external_body]
fn url_port(u: &ParsedUrl) -> (r: Option<u16>)
    ensures
        r == url_port_of(u.href_spec()),
{
    u.url.port()
}

/// The port used when a URL names none.
pub const DEFAULT_PORT: u16 = 1965;

/// Where a request goes and what is sent.
pub struct RequestTarget {
    /// The URL text sent as the request line.
    pub request: String,
    pub host: String,
    pub port: u16,
}

pub open spec fn gemini_prefix() -> Seq<char> {
    seq!['g', 'e', 'm', 'i', 'n', 'i', ':', '/', '/']
}

/// The URL text that is sent and what it parses to: a string without a
/// scheme is read as `gemini://` followed by it.
pub open spec fn request_text_spec(raw: Seq<char>) -> (Seq<char>, Result<Seq<char>, UrlError>) {
    match url_parse_of(raw) {
        Err(UrlError::RelativeWithoutBase) => (gemini_prefix() + raw, url_parse_of(gemini_prefix() + raw)),
        other => (raw, other),
    }
}

/// The request target for a raw URL: the request text, host and port
/// (default 1965); only `gemini` URLs with a host are accepted.
pub open spec fn target_spec(raw: Seq<char>) -> Result<(Seq<char>, Seq<char>, u16), ProtocolError> {
    let (req, parsed) = request_text_spec(raw);
    match parsed {
        Err(_) => Err(ProtocolError::UrlParse),
        Ok(h) => if scheme_part(h) != seq!['g', 'e', 'm', 'i', 'n', 'i'] {
            Err(ProtocolError::UnsupportedScheme)
        } else {
            match url_host_of(h) {
                None => Err(ProtocolError::MissingHost),
                Some(host) => Ok((req, host, match url_port_of(h) { Some(p) => p, None => DEFAULT_PORT })),
            }
        },
    }
}

/// Resolves the URL a request is made for into the request text, host and port.
pub fn resolve_request_target(raw: &str) -> (r: Result<RequestTarget, ProtocolError>)
    ensures
        match r {
            Ok(t) => target_spec(raw@) == Ok::<(Seq<char>, Seq<char>, u16), ProtocolError>((t.request@, t.host@, t.port)),
            Err(e) => target_spec(raw@) == Err::<(Seq<char>, Seq<char>, u16), ProtocolError>(e),
        },
{
    let (request, parsed) = match parse_url(raw) {
        Err(UrlError::RelativeWithoutBase) => {
            let mut prefixed = String::from_str("gemini://");
            proof { reveal_strlit("gemini://"); }
            assert(prefixed@ =~= gemini_prefix());
            prefixed.append(raw);
            let p = parse_url(prefixed.as_str());
            (prefixed, p)
        },
        other => (raw.to_owned(), other),
    };
    let url = match parsed {
        Ok(u) => u,
        Err(_) => {
            return Err(ProtocolError::UrlParse);
        },
    };
    let scheme = url_scheme(&url);
    let gemini = String::from_str("gemini");
    proof { reveal_strlit("gemini"); }
    assert(gemini@ =~= seq!['g', 'e', 'm', 'i', 'n', 'i']);
    if !(scheme == gemini) {
        return Err(ProtocolError::UnsupportedScheme);
    }
    let host = match url_host(&url) {
        Some(h) => h,
        None => {
            return Err(ProtocolError::MissingHost);
        },
    };
    let port = match url_port(&url) {
        Some(p) => p,
        None => DEFAULT_PORT,
    };
    Ok(RequestTarget { request, host, port })
}

/// The bytes of the request line: the URL text in UTF-8, then CRLF.
pub fn request_line(target: &str) -> (r: Vec<u8>)
    ensures
        r@ == encode_utf8(target@) + seq![13u8, 10u8],
{
    let b = target.as_bytes();
    let mut r: Vec<u8> = Vec::new();
    let mut i: usize = 0;
    while i < b.len()
        invariant
            i <= b@.len(),
            r@ == b@.subrange(0, i as int),
        decreases b@.len() - i,
    {
        r.push(b[i]);
        assert(b@.subrange(0, i + 1) =~= b@.subrange(0, i as int).push(b@[i as int]));
        i = i + 1;
    }
    assert(b@.subrange(0, b@.len() as int) =~= b@);
    r.push(13u8);
    r.push(10u8);
    assert(r@ =~= encode_utf8(target@) + seq![13u8, 10u8]);
    r
}

/// Where a link leads: the link itself if it is an absolute URL, else the
/// link resolved against the base URL; `None` if neither works.
pub open spec fn link_target_spec(link: Seq<char>, base: Seq<char>) -> Option<Seq<char>> {
    match url_parse_of(link) {
        Ok(h) => Some(h),
        Err(_) => match url_parse_of(base) {
            Ok(b) => match url_join_of(b, link) {
                Ok(j) => Some(j),
                Err(_) => None,
            },
            Err(_) => None,
        },
    }
}

/// Resolves a link target against the URL of the page it appears on.
pub fn parse_gemini_link(link: &str, base: &str) -> (r: Option<String>)
    ensures
        match r {
            Some(s) => link_target_spec(link@, base@) == Some(s@),
            None => link_target_spec(link@, base@) is None,
        },
{
    match parse_url(link) {
        Ok(u) => {
            return Some(u.href().clone());
        },
        Err(_) => {},
    }
    match parse_url(base) {
        Ok(b) => match join_url(&b, link) {
            Ok(j) => Some(j.href().clone()),
            Err(_) => None,
        },
        Err(_) => None,
    }
}

/// Whether a string is an absolute `gemini` URL with a host.
pub open spec fn valid_gemini_url_spec(s: Seq<char>) -> bool {
    url_parse_of(s) matches Ok(h) && scheme_part(h) == seq!['g', 'e', 'm', 'i', 'n', 'i'] && url_host_of(h) is Some
}

/// Whether `s` is an absolute `gemini` URL with a host.
pub fn is_valid_gemini_url(s: &str) -> (r: bool)
    ensures
        r == valid_gemini_url_spec(s@),
{
    let url = match parse_url(s) {
        Ok(u) => u,
        Err(_) => {
            return false;
        },
    };
    let gemini = String::from_str("gemini");
    proof { reveal_strlit("gemini"); }
    assert(gemini@ =~= seq!['g', 'e', 'm', 'i', 'n', 'i']);
    if !(url_scheme(&url) == gemini) {
        return false;
    }
    match url_host(&url) {
        Some(_) => true,
        None => false,
    }
}

} // verus!
