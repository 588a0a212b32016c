use ruostepurkki::protocol::{
    header_end, parse_response_header, split_response, response_from_header, statuscode_from_u8, ProtocolError, Response,
    ResponseHeader, StatusCode, HEADER_CAPACITY,
};

#[test]
fn parse_header() {
    let headerstring = "10".to_string();
    let header = parse_response_header(&headerstring).ok().unwrap();
    assert!(header.status == StatusCode::Input);
    assert!(header.meta == None);

    let headerstring = "10 Password please".to_string();
    let header = parse_response_header(&headerstring).ok().unwrap();
    assert!(header.status == StatusCode::Input);
    assert!(header.meta == Some("Password please".to_string()));

    let headerstring = "11 Secret password please".to_string();
    let header = parse_response_header(&headerstring).ok().unwrap();
    assert!(header.status == StatusCode::SensitiveInput);
    assert!(header.meta == Some("Secret password please".to_string()));

    let headerstring = "20 text/gemini".to_string();
    let header = parse_response_header(&headerstring).ok().unwrap();
    assert!(header.status == StatusCode::Success);
    assert!(header.meta == Some("text/gemini".to_string()));

    let headerstring = "30 gemini://new.example.com/".to_string();
    let header = parse_response_header(&headerstring).ok().unwrap();
    assert!(header.status == StatusCode::RedirectTemp);
    assert!(header.meta == Some("gemini://new.example.com/".to_string()));
}

#[test]
fn header_unknown_status_fails() {
    assert_eq!(parse_response_header("99 what").err(), Some(ProtocolError::UnknownStatus(99)));
    assert_eq!(parse_response_header("12").err(), Some(ProtocolError::UnknownStatus(12)));
}

#[test]
fn header_without_digits_fails() {
    assert_eq!(parse_response_header("").err(), Some(ProtocolError::MissingStatus));
    assert_eq!(parse_response_header("2").err(), Some(ProtocolError::MissingStatus));
    assert_eq!(parse_response_header("+1 x").err(), Some(ProtocolError::MissingStatus));
}

#[test]
fn header_needs_space_before_meta() {
    assert_eq!(parse_response_header("20text/gemini").err(), Some(ProtocolError::MalformedHeader));
    let h = parse_response_header("51 ").ok().unwrap();
    assert!(h.status == StatusCode::NotFound);
    assert!(h.meta == None);
}

#[test]
fn meta_is_kept_verbatim() {
    let h = parse_response_header("40  two  spaces ").ok().unwrap();
    assert!(h.status == StatusCode::TemporaryFailure);
    assert_eq!(h.meta, Some(" two  spaces ".to_string()));
}

#[test]
fn status_codes_round_trip() {
    for i in 0u8..=255 {
        if let Some(s) = statuscode_from_u8(i) {
            assert_eq!(s.code(), i);
        }
    }
    assert_eq!(statuscode_from_u8(62), Some(StatusCode::CertNotValid));
    assert_eq!(statuscode_from_u8(21), None);
}

#[test]
fn split_at_first_crlf() {
    let (h, rest) = split_response(b"20 text/gemini\r\n# Title\r\nbody");
    let h = h.ok().unwrap();
    assert!(h.status == StatusCode::Success);
    assert_eq!(h.meta, Some("text/gemini".to_string()));
    assert_eq!(rest, b"# Title\r\nbody".to_vec());
    let (h, rest) = split_response(b"31 gemini://a.b/");
    let h = h.ok().unwrap();
    assert!(h.status == StatusCode::RedirectPerm);
    assert_eq!(h.meta, Some("gemini://a.b/".to_string()));
    assert!(rest.is_empty());
    assert_eq!(header_end(b"20 x\r\n"), Some(4));
    assert_eq!(header_end(b"20 x\r"), None);
}

#[test]
fn buffer_oversized_header_fails() {
    let mut buf = vec![b'a'; HEADER_CAPACITY];
    buf[0] = b'2';
    buf[1] = b'0';
    buf[2] = b' ';
    assert_eq!(split_response(&buf).0.err(), Some(ProtocolError::OversizedHeader));
    let n = HEADER_CAPACITY;
    buf[n - 2] = 13;
    buf[n - 1] = 10;
    let (h, rest) = split_response(&buf);
    assert_eq!(h.ok().unwrap().meta.unwrap().len(), HEADER_CAPACITY - 5);
    assert!(rest.is_empty());
}

#[test]
fn buffer_invalid_utf8_fails() {
    assert_eq!(split_response(&[b'2', b'0', b' ', 0xff, 13, 10]).0.err(), Some(ProtocolError::HeaderEncoding));
}

#[test]
fn redirect_without_target_fails() {
    let h = ResponseHeader { status: StatusCode::RedirectTemp, meta: None };
    assert_eq!(response_from_header(h, vec![]).err(), Some(ProtocolError::MissingRedirectTarget));
}

#[test]
fn classification_per_status() {
    let h = ResponseHeader { status: StatusCode::Success, meta: None };
    match response_from_header(h, vec![1, 2, 3]).ok().unwrap() {
        Response::Success(m, b) => {
            assert_eq!(m, "");
            assert_eq!(b, vec![1, 2, 3]);
        }
        _ => panic!("not a success"),
    }
    let h = ResponseHeader { status: StatusCode::Input, meta: None };
    match response_from_header(h, vec![9]).ok().unwrap() {
        Response::Input(p) => assert_eq!(p, ""),
        _ => panic!("not an input"),
    }
    let h = ResponseHeader { status: StatusCode::RedirectPerm, meta: Some("gemini://x/".to_string()) };
    match response_from_header(h, vec![]).ok().unwrap() {
        Response::RedirectPerm(u) => assert_eq!(u, "gemini://x/"),
        _ => panic!("not a redirect"),
    }
    let h = ResponseHeader { status: StatusCode::NotFound, meta: Some("gone away".to_string()) };
    let r = response_from_header(h, vec![]).ok().unwrap();
    assert!(r.status() == StatusCode::NotFound);
    assert_eq!(r.text(), Some(&"gone away".to_string()));
    let h = ResponseHeader { status: StatusCode::CertNotAuthorized, meta: None };
    let r = response_from_header(h, vec![]).ok().unwrap();
    assert!(r.status() == StatusCode::CertNotAuthorized);
    assert_eq!(r.text(), None);
}

#[test]
fn error_messages() {
    assert_eq!(ProtocolError::UnknownStatus(99).message(), "Status code 99 not known");
    assert_eq!(ProtocolError::OversizedHeader.message(), "Too long header received");
}
