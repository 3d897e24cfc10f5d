use edgar_parser::http::{find_blank_line, request_text, response_body};
use edgar_parser::EDGARParserError;

#[test]
fn request_is_framed_exactly() {
    let r = request_text("www.sec.gov", "/files/company_tickers.json", "Acme admin@acme.com", "application/json");
    assert_eq!(
        r,
        "GET /files/company_tickers.json HTTP/1.1\r\nHost: www.sec.gov\r\nUser-Agent: Acme admin@acme.com\r\nConnection: close\r\nAccept: application/json\r\n\r\n"
    );
}

#[test]
fn response_without_blank_line_has_no_body() {
    let r = response_body(b"HTTP/1.1 200 OK\r\nContent-Length: 2\r\n");
    match r {
        Err(EDGARParserError::EmptyOrMissingBody(m)) => assert_eq!(m, "no body found"),
        other => panic!("unexpected {:?}", other),
    }
    assert!(matches!(response_body(b""), Err(EDGARParserError::EmptyOrMissingBody(_))));
    assert!(matches!(response_body(b"\r\n\r"), Err(EDGARParserError::EmptyOrMissingBody(_))));
}

#[test]
fn response_with_empty_body() {
    match response_body(b"HTTP/1.1 204 No Content\r\n\r\n") {
        Err(EDGARParserError::EmptyOrMissingBody(m)) => assert_eq!(m, "empty body"),
        other => panic!("unexpected {:?}", other),
    }
}

#[test]
fn response_body_follows_first_blank_line() {
    let r = response_body(b"HTTP/1.1 200 OK\r\nA: b\r\n\r\n{\"x\":1}\r\n\r\nmore").unwrap();
    assert_eq!(r, "{\"x\":1}\r\n\r\nmore");
    assert_eq!(response_body(b"\r\n\r\nx").unwrap(), "x");
    assert_eq!(response_body("H\r\n\r\ncaf\u{e9}".as_bytes()).unwrap(), "caf\u{e9}");
}

#[test]
fn response_body_replaces_invalid_utf8() {
    assert_eq!(response_body(b"H\r\n\r\na\xffb").unwrap(), "a\u{fffd}b");
}

#[test]
fn blank_line_position() {
    assert_eq!(find_blank_line(b"ab\r\n\r\ncd"), Some(2));
    assert_eq!(find_blank_line(b"\r\n\r\n"), Some(0));
    assert_eq!(find_blank_line(b"\r\n\r"), None);
    assert_eq!(find_blank_line(b"\n\r\n\r\n"), Some(1));
}
