//! The Gemini response header: framing, status codes and classification of a
//! response into one variant per status.

use vstd::prelude::*;
use vstd::utf8::{decode_utf8, valid_utf8};
use crate::certificates::ServerCertError;
use crate::text::{chars_of, string_of, decimal_digits, decimal_string};

verus! {

/// Capacity of the buffer a response header is read into.
pub const HEADER_CAPACITY: usize = 1029;

/// The status codes that a server may answer with.
#[derive(Clone, Copy, PartialEq, Eq, Debug, Structural)]
pub enum StatusCode {
    Input,
    SensitiveInput,
    Success,
    RedirectTemp,
    RedirectPerm,
    TemporaryFailure,
    ServerUnavailable,
    CgiError,
    ProxyError,
    SlowDown,
    PermanentFailure,
    NotFound,
    Gone,
    ProxyReqRefused,
    BadRequest,
    ClientCertRequired,
    CertNotAuthorized,
    CertNotValid,
}

/// The status that a two-digit code stands for, if it is a known one.
pub open spec fn status_of(i: u8) -> Option<StatusCode> {
    if i == 10 { Some(StatusCode::Input) }
    else if i == 11 { Some(StatusCode::SensitiveInput) }
    else if i == 20 { Some(StatusCode::Success) }
    else if i == 30 { Some(StatusCode::RedirectTemp) }
    else if i == 31 { Some(StatusCode::RedirectPerm) }
    else if i == 40 { Some(StatusCode::TemporaryFailure) }
    else if i == 41 { Some(StatusCode::ServerUnavailable) }
    else if i == 42 { Some(StatusCode::CgiError) }
    else if i == 43 { Some(StatusCode::ProxyError) }
    else if i == 44 { Some(StatusCode::SlowDown) }
    else if i == 50 { Some(StatusCode::PermanentFailure) }
    else if i == 51 { Some(StatusCode::NotFound) }
    else if i == 52 { Some(StatusCode::Gone) }
    else if i == 53 { Some(StatusCode::ProxyReqRefused) }
    else if i == 59 { Some(StatusCode::BadRequest) }
    else if i == 60 { Some(StatusCode::ClientCertRequired) }
    else if i == 61 { Some(StatusCode::CertNotAuthorized) }
    else if i == 62 { Some(StatusCode::CertNotValid) }
    else { None }
}

/// Maps a numeric status code to its `StatusCode`, `None` for an unknown code.
pub fn statuscode_from_u8(i: u8) -> (r: Option<StatusCode>)
    ensures
        r == status_of(i),
{
    match i {
        10 => Some(StatusCode::Input),
        11 => Some(StatusCode::SensitiveInput),
        20 => Some(StatusCode::Success),
        30 => Some(StatusCode::RedirectTemp),
        31 => Some(StatusCode::RedirectPerm),
        40 => Some(StatusCode::TemporaryFailure),
        41 => Some(StatusCode::ServerUnavailable),
        42 => Some(StatusCode::CgiError),
        43 => Some(StatusCode::ProxyError),
        44 => Some(StatusCode::SlowDown),
        50 => Some(StatusCode::PermanentFailure),
        51 => Some(StatusCode::NotFound),
        52 => Some(StatusCode::Gone),
        53 => Some(StatusCode::ProxyReqRefused),
        59 => Some(StatusCode::BadRequest),
        60 => Some(StatusCode::ClientCertRequired),
        61 => Some(StatusCode::CertNotAuthorized),
        62 => Some(StatusCode::CertNotValid),
        _ => None,
    }
}

/// Why a request did not yield a response.
#[derive(Clone, Copy, PartialEq, Eq, Debug, Structural)]
pub enum ProtocolError {
    UrlParse,
    UnsupportedScheme,
    MissingHost,
    Connect,
    Tls,
    Certificate(ServerCertError),
    Write,
    HeaderRead,
    OversizedHeader,
    HeaderEncoding,
    MissingStatus,
    UnknownStatus(u8),
    MalformedHeader,
    MissingRedirectTarget,
    BodyRead,
}

/// A parsed response header: the status and the optional meta text.
pub struct ResponseHeader {
    pub status: StatusCode,
    pub meta: Option<String>,
}

/// A response, one variant per status code, holding what that status carries.
pub enum Response {
    Input(String),
    SensitiveInput(String),
    Success(String, Vec<u8>),
    RedirectTemp(String),
    RedirectPerm(String),
    TemporaryFailure(Option<String>),
    ServerUnavailable(Option<String>),
    CgiError(Option<String>),
    ProxyError(Option<String>),
    SlowDown(Option<String>),
    PermanentFailure(Option<String>),
    NotFound(Option<String>),
    Gone(Option<String>),
    ProxyReqRefused(Option<String>),
    BadRequest(Option<String>),
    ClientCertRequired(Option<String>),
    CertNotAuthorized(Option<String>),
    CertNotValid(Option<String>),
}

pub open spec fn opt_view(o: Option<String>) -> Option<Seq<char>> {
    match o {
        Some(s) => Some(s@),
        None => None,
    }
}

pub open spec fn is_ascii_digit(c: char) -> bool {
    '0' <= c && c <= '9'
}

pub open spec fn digit_value(c: char) -> int {
    c as int - '0' as int
}

/// The meaning of a header line (CRLF already removed): two ASCII digits that
/// form a known code, then optionally a space and the meta text.
pub open spec fn header_spec(h: Seq<char>) -> Result<(StatusCode, Option<Seq<char>>), ProtocolError> {
    if h.len() < 2 || !is_ascii_digit(h[0]) || !is_ascii_digit(h[1]) {
        Err(ProtocolError::MissingStatus)
    } else {
        let n = (digit_value(h[0]) * 10 + digit_value(h[1])) as u8;
        match status_of(n) {
            None => Err(ProtocolError::UnknownStatus(n)),
            Some(st) => if h.len() == 2 {
                Ok((st, None))
            } else if h[2] != ' ' {
                Err(ProtocolError::MalformedHeader)
            } else if h.len() == 3 {
                Ok((st, None))
            } else {
                Ok((st, Some(h.subrange(3, h.len() as int))))
            },
        }
    }
}

pub open spec fn header_view(r: Result<ResponseHeader, ProtocolError>) -> Result<(StatusCode, Option<Seq<char>>), ProtocolError> {
    match r {
        Ok(h) => Ok((h.status, opt_view(h.meta))),
        Err(e) => Err(e),
    }
}

/// Parses a header line `<2-digit status>[ <meta>]`.
pub fn parse_response_header(res: &str) -> (r: Result<ResponseHeader, ProtocolError>)
    ensures
        header_view(r) == header_spec(res@),
{
    let cs = chars_of(res);
    let n = cs.len();
    if n < 2 || !('0' <= cs[0] && cs[0] <= '9') || !('0' <= cs[1] && cs[1] <= '9') {
        return Err(ProtocolError::MissingStatus);
    }
    let code: u8 = ((cs[0] as u32 - '0' as u32) * 10 + (cs[1] as u32 - '0' as u32)) as u8;
    let status = match statuscode_from_u8(code) {
        Some(s) => s,
        None => {
            return Err(ProtocolError::UnknownStatus(code));
        },
    };
    if n == 2 {
        return Ok(ResponseHeader { status, meta: None });
    }
    if cs[2] != ' ' {
        return Err(ProtocolError::MalformedHeader);
    }
    if n == 3 {
        return Ok(ResponseHeader { status, meta: None });
    }
    let meta = string_of(&cs, 3, n);
    Ok(ResponseHeader { status, meta: Some(meta) })
}

/// Relies on `String::from_utf8`: succeeds exactly on valid UTF-8 and then
/// holds the decoded characters.
#[verifier::external_body]
pub(crate) fn decode_utf8_bytes(b: Vec<u8>) -> (r: Option<String>)
    ensures
        r is Some <==> valid_utf8(b@),
        r matches Some(s) ==> s@ == decode_utf8(b@),
{
    String::from_utf8(b).ok()
}

/// Whether a CR LF pair starts at `i`.
pub open spec fn crlf_at(b: Seq<u8>, i: int) -> bool {
    0 <= i && i + 1 < b.len() && b[i] == 13u8 && b[i + 1] == 10u8
}

/// Whether `i` is where the first CR LF pair starts.
pub open spec fn first_crlf(b: Seq<u8>, i: int) -> bool {
    crlf_at(b, i) && forall|j: int| 0 <= j < i ==> !crlf_at(b, j)
}

pub open spec fn has_crlf(b: Seq<u8>) -> bool {
    exists|i: int| crlf_at(b, i)
}

/// The meaning of the bytes of a header line (without its CR LF).
pub open spec fn line_header_spec(h: Seq<u8>) -> Result<(StatusCode, Option<Seq<char>>), ProtocolError> {
    if !valid_utf8(h) { Err(ProtocolError::HeaderEncoding) } else { header_spec(decode_utf8(h)) }
}

/// Where the header line ends: the first CR LF, if the bytes hold one.
pub fn header_end(buf: &[u8]) -> (r: Option<usize>)
    ensures
        match r {
            Some(i) => first_crlf(buf@, i as int),
            None => !has_crlf(buf@),
        },
{
    let n = buf.len();
    let mut i: usize = 0;
    while n > 0 && i < n - 1
        invariant
            n == buf@.len(),
            i <= n,
            forall|j: int| 0 <= j < i ==> !crlf_at(buf@, j),
        decreases n - i,
    {
        if buf[i] == 13u8 && buf[i + 1] == 10u8 {
            return Some(i);
        }
        i = i + 1;
    }
    assert forall|j: int| !crlf_at(buf@, j) by {
        if 0 <= j < i {
        }
    }
    None
}

fn copy_range(buf: &[u8], from: usize, to: usize) -> (r: Vec<u8>)
    requires
        from <= to <= buf@.len(),
    ensures
        r@ == buf@.subrange(from as int, to as int),
{
    let mut r: Vec<u8> = Vec::new();
    let mut i: usize = from;
    while i < to
        invariant
            from <= i <= to <= buf@.len(),
            r@ == buf@.subrange(from as int, i as int),
        decreases to - i,
    {
        r.push(buf[i]);
        assert(buf@.subrange(from as int, i + 1) == buf@.subrange(from as int, i as int).push(buf@[i as int]));
        i = i + 1;
    }
    r
}

/// Splits the first bytes read from a response into the parsed header line
/// and the bytes after its CR LF, which begin the body. Without a CR LF the
/// whole buffer is the header line, unless the buffer is full: then the
/// header is too long.
pub fn split_response(buf: &[u8]) -> (r: (Result<ResponseHeader, ProtocolError>, Vec<u8>))
    requires
        buf@.len() <= HEADER_CAPACITY,
    ensures
        forall|i: int| #[trigger] first_crlf(buf@, i) ==> {
            &&& header_view(r.0) == line_header_spec(buf@.take(i))
            &&& r.1@ == buf@.skip(i + 2)
        },
        !has_crlf(buf@) ==> r.1@ == Seq::<u8>::empty(),
        !has_crlf(buf@) && buf@.len() == HEADER_CAPACITY ==> r.0 matches Err(ProtocolError::OversizedHeader),
        !has_crlf(buf@) && buf@.len() < HEADER_CAPACITY ==> header_view(r.0) == line_header_spec(buf@),
{
    let n = buf.len();
    let (end, rest) = match header_end(buf) {
        Some(i) => {
            let rest = copy_range(buf, i + 2, n);
            assert forall|k: int| #[trigger] first_crlf(buf@, k) implies k == i by {
                if k < i {
                    assert(!crlf_at(buf@, k));
                } else if k > i {
                    assert(!crlf_at(buf@, i as int));
                }
            }
            (i, rest)
        },
        None => {
            if n == HEADER_CAPACITY {
                return (Err(ProtocolError::OversizedHeader), Vec::new());
            }
            (n, Vec::new())
        },
    };
    let line = copy_range(buf, 0, end);
    assert(buf@.subrange(0, end as int) =~= buf@.take(end as int));
    assert(buf@.subrange(end as int + 2, n as int) =~= buf@.skip(end as int + 2) || end == n);
    assert(end == n ==> buf@.take(end as int) =~= buf@);
    let header = match decode_utf8_bytes(line) {
        Some(text) => parse_response_header(text.as_str()),
        None => Err(ProtocolError::HeaderEncoding),
    };
    (header, rest)
}

/// Statuses whose meta is the text a response of that kind must carry.
pub open spec fn meta_defaults_to_empty(st: StatusCode) -> bool {
    st == StatusCode::Input || st == StatusCode::SensitiveInput || st == StatusCode::Success
}

pub open spec fn is_redirect(st: StatusCode) -> bool {
    st == StatusCode::RedirectTemp || st == StatusCode::RedirectPerm
}

/// The text a response built from `st` and `meta` carries: the prompt, the
/// mime type or the target (an absent meta counting as empty where one is
/// always present), else the optional information.
pub open spec fn expected_text(st: StatusCode, meta: Option<Seq<char>>) -> Option<Seq<char>> {
    if meta_defaults_to_empty(st) {
        match meta {
            Some(m) => Some(m),
            None => Some(Seq::empty()),
        }
    } else {
        meta
    }
}

impl Response {
    /// The status this response answers to.
    pub open spec fn status_spec(&self) -> StatusCode {
        match self {
            Response::Input(_) => StatusCode::Input,
            Response::SensitiveInput(_) => StatusCode::SensitiveInput,
            Response::Success(_, _) => StatusCode::Success,
            Response::RedirectTemp(_) => StatusCode::RedirectTemp,
            Response::RedirectPerm(_) => StatusCode::RedirectPerm,
            Response::TemporaryFailure(_) => StatusCode::TemporaryFailure,
            Response::ServerUnavailable(_) => StatusCode::ServerUnavailable,
            Response::CgiError(_) => StatusCode::CgiError,
            Response::ProxyError(_) => StatusCode::ProxyError,
            Response::SlowDown(_) => StatusCode::SlowDown,
            Response::PermanentFailure(_) => StatusCode::PermanentFailure,
            Response::NotFound(_) => StatusCode::NotFound,
            Response::Gone(_) => StatusCode::Gone,
            Response::ProxyReqRefused(_) => StatusCode::ProxyReqRefused,
            Response::BadRequest(_) => StatusCode::BadRequest,
            Response::ClientCertRequired(_) => StatusCode::ClientCertRequired,
            Response::CertNotAuthorized(_) => StatusCode::CertNotAuthorized,
            Response::CertNotValid(_) => StatusCode::CertNotValid,
        }
    }

    /// The text this response carries: prompt, mime type, target or information.
    pub open spec fn text_spec(&self) -> Option<Seq<char>> {
        match self {
            Response::Input(s) => Some(s@),
            Response::SensitiveInput(s) => Some(s@),
            Response::Success(m, _) => Some(m@),
            Response::RedirectTemp(u) => Some(u@),
            Response::RedirectPerm(u) => Some(u@),
            Response::TemporaryFailure(i) => opt_view(*i),
            Response::ServerUnavailable(i) => opt_view(*i),
            Response::CgiError(i) => opt_view(*i),
            Response::ProxyError(i) => opt_view(*i),
            Response::SlowDown(i) => opt_view(*i),
            Response::PermanentFailure(i) => opt_view(*i),
            Response::NotFound(i) => opt_view(*i),
            Response::Gone(i) => opt_view(*i),
            Response::ProxyReqRefused(i) => opt_view(*i),
            Response::BadRequest(i) => opt_view(*i),
            Response::ClientCertRequired(i) => opt_view(*i),
            Response::CertNotAuthorized(i) => opt_view(*i),
            Response::CertNotValid(i) => opt_view(*i),
        }
    }
}

/// Builds the response for a parsed header; `body` is what followed the
/// header and is kept only by a success.
pub fn response_from_header(header: ResponseHeader, body: Vec<u8>) -> (r: Result<Response, ProtocolError>)
    ensures
        r is Err <==> is_redirect(header.status) && header.meta is None,
        r matches Err(e) ==> e == ProtocolError::MissingRedirectTarget,
        r matches Ok(resp) ==> resp.status_spec() == header.status
            && resp.text_spec() == expected_text(header.status, opt_view(header.meta)),
        r matches Ok(Response::Success(_, b)) ==> b@ == body@,
{
    let meta = header.meta;
    match header.status {
        StatusCode::Input => Ok(Response::Input(meta.unwrap_or(String::new()))),
        StatusCode::SensitiveInput => Ok(Response::SensitiveInput(meta.unwrap_or(String::new()))),
        StatusCode::Success => Ok(Response::Success(meta.unwrap_or(String::new()), body)),
        StatusCode::RedirectTemp => match meta {
            Some(m) => Ok(Response::RedirectTemp(m)),
            None => Err(ProtocolError::MissingRedirectTarget),
        },
        StatusCode::RedirectPerm => match meta {
            Some(m) => Ok(Response::RedirectPerm(m)),
            None => Err(ProtocolError::MissingRedirectTarget),
        },
        StatusCode::TemporaryFailure => Ok(Response::TemporaryFailure(meta)),
        StatusCode::ServerUnavailable => Ok(Response::ServerUnavailable(meta)),
        StatusCode::CgiError => Ok(Response::CgiError(meta)),
        StatusCode::ProxyError => Ok(Response::ProxyError(meta)),
        StatusCode::SlowDown => Ok(Response::SlowDown(meta)),
        StatusCode::PermanentFailure => Ok(Response::PermanentFailure(meta)),
        StatusCode::NotFound => Ok(Response::NotFound(meta)),
        StatusCode::Gone => Ok(Response::Gone(meta)),
        StatusCode::ProxyReqRefused => Ok(Response::ProxyReqRefused(meta)),
        StatusCode::BadRequest => Ok(Response::BadRequest(meta)),
        StatusCode::ClientCertRequired => Ok(Response::ClientCertRequired(meta)),
        StatusCode::CertNotAuthorized => Ok(Response::CertNotAuthorized(meta)),
        StatusCode::CertNotValid => Ok(Response::CertNotValid(meta)),
    }
}

/// The two-digit code of a status.
pub open spec fn code_of(st: StatusCode) -> u8 {
    match st {
        StatusCode::Input => 10,
        StatusCode::SensitiveInput => 11,
        StatusCode::Success => 20,
        StatusCode::RedirectTemp => 30,
        StatusCode::RedirectPerm => 31,
        StatusCode::TemporaryFailure => 40,
        StatusCode::ServerUnavailable => 41,
        StatusCode::CgiError => 42,
        StatusCode::ProxyError => 43,
        StatusCode::SlowDown => 44,
        StatusCode::PermanentFailure => 50,
        StatusCode::NotFound => 51,
        StatusCode::Gone => 52,
        StatusCode::ProxyReqRefused => 53,
        StatusCode::BadRequest => 59,
        StatusCode::ClientCertRequired => 60,
        StatusCode::CertNotAuthorized => 61,
        StatusCode::CertNotValid => 62,
    }
}

impl StatusCode {
    /// The two-digit code of this status.
    pub fn code(&self) -> (r: u8)
        ensures
            r == code_of(*self),
            status_of(r) == Some(*self),
    {
        match self {
            StatusCode::Input => 10,
            StatusCode::SensitiveInput => 11,
            StatusCode::Success => 20,
            StatusCode::RedirectTemp => 30,
            StatusCode::RedirectPerm => 31,
            StatusCode::TemporaryFailure => 40,
            StatusCode::ServerUnavailable => 41,
            StatusCode::CgiError => 42,
            StatusCode::ProxyError => 43,
            StatusCode::SlowDown => 44,
            StatusCode::PermanentFailure => 50,
            StatusCode::NotFound => 51,
            StatusCode::Gone => 52,
            StatusCode::ProxyReqRefused => 53,
            StatusCode::BadRequest => 59,
            StatusCode::ClientCertRequired => 60,
            StatusCode::CertNotAuthorized => 61,
            StatusCode::CertNotValid => 62,
        }
    }
}

/// Every known code maps back to itself.
pub proof fn status_code_round_trip(i: u8)
    ensures
        status_of(i) matches Some(st) ==> code_of(st) == i,
{
}

impl Response {
    /// The status of this response.
    pub fn status(&self) -> (r: StatusCode)
        ensures
            r == self.status_spec(),
    {
        match self {
            Response::Input(_) => StatusCode::Input,
            Response::SensitiveInput(_) => StatusCode::SensitiveInput,
            Response::Success(_, _) => StatusCode::Success,
            Response::RedirectTemp(_) => StatusCode::RedirectTemp,
            Response::RedirectPerm(_) => StatusCode::RedirectPerm,
            Response::TemporaryFailure(_) => StatusCode::TemporaryFailure,
            Response::ServerUnavailable(_) => StatusCode::ServerUnavailable,
            Response::CgiError(_) => StatusCode::CgiError,
            Response::ProxyError(_) => StatusCode::ProxyError,
            Response::SlowDown(_) => StatusCode::SlowDown,
            Response::PermanentFailure(_) => StatusCode::PermanentFailure,
            Response::NotFound(_) => StatusCode::NotFound,
            Response::Gone(_) => StatusCode::Gone,
            Response::ProxyReqRefused(_) => StatusCode::ProxyReqRefused,
            Response::BadRequest(_) => StatusCode::BadRequest,
            Response::ClientCertRequired(_) => StatusCode::ClientCertRequired,
            Response::CertNotAuthorized(_) => StatusCode::CertNotAuthorized,
            Response::CertNotValid(_) => StatusCode::CertNotValid,
        }
    }

    /// The text this response carries: prompt, mime type, target or information.
    pub fn text(&self) -> (r: Option<&String>)
        ensures
            opt_view(match r { Some(s) => Some(*s), None => None }) == self.text_spec(),
    {
        match self {
            Response::Input(s) => Some(s),
            Response::SensitiveInput(s) => Some(s),
            Response::Success(m, _) => Some(m),
            Response::RedirectTemp(u) => Some(u),
            Response::RedirectPerm(u) => Some(u),
            Response::TemporaryFailure(i) => i.as_ref(),
            Response::ServerUnavailable(i) => i.as_ref(),
            Response::CgiError(i) => i.as_ref(),
            Response::ProxyError(i) => i.as_ref(),
            Response::SlowDown(i) => i.as_ref(),
            Response::PermanentFailure(i) => i.as_ref(),
            Response::NotFound(i) => i.as_ref(),
            Response::Gone(i) => i.as_ref(),
            Response::ProxyReqRefused(i) => i.as_ref(),
            Response::BadRequest(i) => i.as_ref(),
            Response::ClientCertRequired(i) => i.as_ref(),
            Response::CertNotAuthorized(i) => i.as_ref(),
            Response::CertNotValid(i) => i.as_ref(),
        }
    }
}

/// The status-line text for a failed request.
pub open spec fn error_text(e: ProtocolError) -> Seq<char> {
    match e {
        ProtocolError::UrlParse => "Failed parsing URL"@,
        ProtocolError::UnsupportedScheme => "Scheme not supported"@,
        ProtocolError::MissingHost => "Did not find hostname"@,
        ProtocolError::Connect => "Unable to start TLS connection"@,
        ProtocolError::Tls => "Unable to connect"@,
        ProtocolError::Certificate(_) => "Certificate error"@,
        ProtocolError::Write => "Error writing to stream"@,
        ProtocolError::HeaderRead => "Error reading header from stream"@,
        ProtocolError::OversizedHeader => "Too long header received"@,
        ProtocolError::HeaderEncoding => "Could not parse header as UTF-8"@,
        ProtocolError::MissingStatus => "No status code in response"@,
        ProtocolError::UnknownStatus(n) => "Status code "@ + decimal_digits(n as nat) + " not known"@,
        ProtocolError::MalformedHeader => "Malformed response header"@,
        ProtocolError::MissingRedirectTarget => "Server returned status code for redirect but no URL provided"@,
        ProtocolError::BodyRead => "Error reading response body"@,
    }
}

impl ProtocolError {
    /// The text shown in the status line for this error.
    pub fn message(&self) -> (r: String)
        ensures
            r@ == error_text(*self),
    {
        match self {
            ProtocolError::UrlParse => String::from_str("Failed parsing URL"),
            ProtocolError::UnsupportedScheme => String::from_str("Scheme not supported"),
            ProtocolError::MissingHost => String::from_str("Did not find hostname"),
            ProtocolError::Connect => String::from_str("Unable to start TLS connection"),
            ProtocolError::Tls => String::from_str("Unable to connect"),
            ProtocolError::Certificate(_) => String::from_str("Certificate error"),
            ProtocolError::Write => String::from_str("Error writing to stream"),
            ProtocolError::HeaderRead => String::from_str("Error reading header from stream"),
            ProtocolError::OversizedHeader => String::from_str("Too long header received"),
            ProtocolError::HeaderEncoding => String::from_str("Could not parse header as UTF-8"),
            ProtocolError::MissingStatus => String::from_str("No status code in response"),
            ProtocolError::UnknownStatus(n) => {
                let mut m = String::from_str("Status code ");
                m.append(decimal_string(*n as usize).as_str());
                m.append(" not known");
                m
            },
            ProtocolError::MalformedHeader => String::from_str("Malformed response header"),
            ProtocolError::MissingRedirectTarget => String::from_str(
                "Server returned status code for redirect but no URL provided",
            ),
            ProtocolError::BodyRead => String::from_str("Error reading response body"),
        }
    }
}

} // verus!
