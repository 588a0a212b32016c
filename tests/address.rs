use ruostepurkki::address::{is_valid_gemini_url, parse_gemini_link, request_line, resolve_request_target};
use ruostepurkki::protocol::ProtocolError;

#[test]
fn target_of_full_url() {
    let t = resolve_request_target("gemini://example.com/page").ok().unwrap();
    assert_eq!(t.request, "gemini://example.com/page");
    assert_eq!(t.host, "example.com");
    assert_eq!(t.port, 1965);
}

#[test]
fn target_of_bare_host_gets_scheme() {
    let t = resolve_request_target("example.com/x").ok().unwrap();
    assert_eq!(t.request, "gemini://example.com/x");
    assert_eq!(t.host, "example.com");
}

#[test]
fn target_explicit_port_and_errors() {
    let t = resolve_request_target("gemini://localhost:1966/").ok().unwrap();
    assert_eq!(t.port, 1966);
    assert_eq!(resolve_request_target("https://example.com/").err(), Some(ProtocolError::UnsupportedScheme));
    assert_eq!(resolve_request_target("gemini://exa mple.com/").err(), Some(ProtocolError::UrlParse));
    assert_eq!(resolve_request_target("gemini:nohost").err(), Some(ProtocolError::MissingHost));
}

#[test]
fn request_line_ends_in_crlf() {
    assert_eq!(request_line("gemini://a/ö"), "gemini://a/ö\r\n".as_bytes().to_vec());
}

#[test]
fn links_resolve_against_page() {
    assert_eq!(
        parse_gemini_link("other.gmi", "gemini://example.com/dir/page.gmi"),
        Some("gemini://example.com/dir/other.gmi".to_string())
    );
    assert_eq!(parse_gemini_link("gemini://b.org/x", "gemini://example.com/"), Some("gemini://b.org/x".to_string()));
    assert_eq!(parse_gemini_link("other.gmi", ""), None);
}

#[test]
fn valid_gemini_urls() {
    assert!(is_valid_gemini_url("gemini://example.com/"));
    assert!(!is_valid_gemini_url("http://example.com/"));
    assert!(!is_valid_gemini_url("example.com"));
}
