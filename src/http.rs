//! The two ends of a raw HTTP/1.1 exchange: framing a GET request, and taking the body out
//! of the complete response that the peer sent before closing the connection.
//!
//! The status line is not inspected here: the body is whatever follows the first blank
//! line, whatever the status was.

use crate::error::EDGARParserError;
use vstd::prelude::*;
use vstd::slice::slice_subrange;
use vstd::string::*;
use vstd::utf8::{decode_utf8, valid_utf8};

verus! {

/// The request that asks `host` for `path`: request line, `Host`, `User-Agent`,
/// `Connection: close` and `Accept` headers, then a blank line, every line ended by CRLF.
pub open spec fn request_spec(
    host: Seq<char>,
    path: Seq<char>,
    user_agent: Seq<char>,
    accept: Seq<char>,
) -> Seq<char> {
    "GET "@ + path + " HTTP/1.1\r\nHost: "@ + host + "\r\nUser-Agent: "@ + user_agent
        + "\r\nConnection: close\r\nAccept: "@ + accept + "\r\n\r\n"@
}

/// Whether the four bytes at `i` are CR LF CR LF.
pub open spec fn blank_line_at(b: Seq<u8>, i: int) -> bool {
    &&& 0 <= i
    &&& i + 4 <= b.len()
    &&& b[i] == 13u8
    &&& b[i + 1] == 10u8
    &&& b[i + 2] == 13u8
    &&& b[i + 3] == 10u8
}

/// The first position at or after `i` where a blank line (CR LF CR LF) starts.
pub open spec fn first_blank_line_from(b: Seq<u8>, i: int) -> Option<int>
    decreases b.len() - i,
{
    if i < 0 || i + 4 > b.len() {
        None
    } else if blank_line_at(b, i) {
        Some(i)
    } else {
        first_blank_line_from(b, i + 1)
    }
}

/// The bytes after the first blank line of a response, if it has one.
pub open spec fn body_bytes(b: Seq<u8>) -> Option<Seq<u8>> {
    match first_blank_line_from(b, 0) {
        Some(i) => Some(b.subrange(i + 4, b.len() as int)),
        None => None,
    }
}

/// The position `first_blank_line_from` finds holds a blank line, and is the first one.
pub proof fn lemma_first_blank_line(b: Seq<u8>, k: int)
    requires
        0 <= k,
    ensures
        first_blank_line_from(b, k) matches Some(i) ==> k <= i && blank_line_at(b, i) && forall|
            j: int,
        | k <= j < i ==> !blank_line_at(b, j),
        first_blank_line_from(b, k) is None ==> forall|j: int| k <= j ==> !blank_line_at(b, j),
    decreases b.len() - k,
{
    if k + 4 <= b.len() && !blank_line_at(b, k) {
        lemma_first_blank_line(b, k + 1);
    }
}

/// What `String::from_utf8_lossy` makes of a byte sequence.
pub uninterp spec fn lossy_text(b: Seq<u8>) -> Seq<char>;

/// Relies on `String::from_utf8_lossy`: valid UTF-8 is decoded as it stands, and the result
/// depends on the bytes alone.
#[verifier::external_body]
fn decode_text(b: &[u8]) -> (r: String)
    ensures
        r@ == lossy_text(b@),
        valid_utf8(b@) ==> r@ == decode_utf8(b@),
{
    String::from_utf8_lossy(b).into_owned()
}

/// Frames a GET request for `path` on `host`.
pub fn request_text(host: &str, path: &str, user_agent: &str, accept: &str) -> (r: String)
    ensures
        r@ == request_spec(host@, path@, user_agent@, accept@),
{
    let mut r = String::from_str("GET ");
    r.append(path);
    r.append(" HTTP/1.1\r\nHost: ");
    r.append(host);
    r.append("\r\nUser-Agent: ");
    r.append(user_agent);
    r.append("\r\nConnection: close\r\nAccept: ");
    r.append(accept);
    r.append("\r\n\r\n");
    r
}

/// The position of the first blank line (CR LF CR LF) in `b`, if there is one.
pub fn find_blank_line(b: &[u8]) -> (r: Option<usize>)
    ensures
        r matches Some(i) ==> first_blank_line_from(b@, 0) == Some(i as int) && i + 4 <= b@.len(),
        r is None ==> first_blank_line_from(b@, 0) is None,
{
    let n = b.len();
    if n < 4 {
        return None;
    }
    let mut i: usize = 0;
    while i <= n - 4
        invariant
            n == b@.len(),
            n >= 4,
            0 <= i <= n - 3,
            first_blank_line_from(b@, 0) == first_blank_line_from(b@, i as int),
        decreases n - i,
    {
        if b[i] == 13u8 && b[i + 1] == 10u8 && b[i + 2] == 13u8 && b[i + 3] == 10u8 {
            proof {
                lemma_first_blank_line(b@, 0);
            }
            return Some(i);
        }
        i += 1;
    }
    None
}

/// The body of a complete response: the text after its first blank line.
///
/// Fails with `EmptyOrMissingBody("no body found")` when the response has no blank line,
/// and with `EmptyOrMissingBody("empty body")` when nothing follows it.
pub fn response_body(response: &[u8]) -> (r: Result<String, EDGARParserError>)
    ensures
        match body_bytes(response@) {
            None => (r matches Err(EDGARParserError::EmptyOrMissingBody(m)) && m@
                == "no body found"@),
            Some(body) => if body.len() == 0 {
                (r matches Err(EDGARParserError::EmptyOrMissingBody(m)) && m@ == "empty body"@)
            } else {
                (r matches Ok(t) && t@ == lossy_text(body) && (valid_utf8(body) ==> t@
                    == decode_utf8(body)))
            },
        },
{
    let n = response.len();
    match find_blank_line(response) {
        None => Err(EDGARParserError::EmptyOrMissingBody(String::from_str("no body found"))),
        Some(i) => {
            let body = slice_subrange(response, i + 4, n);
            if body.len() == 0 {
                Err(EDGARParserError::EmptyOrMissingBody(String::from_str("empty body")))
            } else {
                Ok(decode_text(body))
            }
        },
    }
}

} // verus!
