//! Framing a status, a content kind and a body into response bytes.
use vstd::prelude::*;
use vstd::string::*;
use vstd::utf8::encode_utf8;

use crate::http::{mime_text, status_text, HttpContentType, HttpStatusCode};

verus! {

/// The decimal digit character for `d`, where `d < 10`.
pub open spec fn digit_char(d: nat) -> char {
    "0123456789"@[d as int]
}

/// The decimal notation of `n`, without leading zeros.
pub open spec fn decimal(n: nat) -> Seq<char>
    decreases n,
{
    if n < 10 {
        seq![digit_char(n)]
    } else {
        decimal(n / 10).push(digit_char(n % 10))
    }
}

/// The status line and headers of a response, up to and including the blank
/// line that ends them.
pub open spec fn response_head(status: HttpStatusCode, kind: HttpContentType, len: nat) -> Seq<
    char,
> {
    "HTTP/1.1 "@ + status_text(status) + "\r\nContent-Type: "@ + mime_text(kind)
        + "\r\nContent-Length: "@ + decimal(len) + "\r\n\r\n"@
}

/// The bytes of a whole response: the head in UTF-8, then the body verbatim.
pub open spec fn response_bytes(status: HttpStatusCode, kind: HttpContentType, body: Seq<u8>) -> Seq<
    u8,
> {
    encode_utf8(response_head(status, kind, body.len())) + body
}

/// Returns the decimal notation of `n`.
pub fn decimal_string(n: usize) -> (r: String)
    ensures
        r@ == decimal(n as nat),
    decreases n,
{
    proof {
        reveal_strlit("0123456789");
    }
    let digit = n % 10;
    let one = "0123456789".substring_char(digit, digit + 1);
    assert(one@ =~= seq![digit_char(digit as nat)]);
    if n < 10 {
        String::from_str(one)
    } else {
        let mut s = decimal_string(n / 10);
        s.append(one);
        s
    }
}

/// Builds an HTTP response message.
pub fn build_response(
    status_code: HttpStatusCode,
    content: Vec<u8>,
    content_type: HttpContentType,
) -> (r: Vec<u8>)
    ensures
        r@ == response_bytes(status_code, content_type, content@),
{
    let mut content = content;
    let length = decimal_string(content.len());
    let mut head = String::from_str("HTTP/1.1 ");
    head.append(status_code.status_line());
    head.append("\r\nContent-Type: ");
    head.append(content_type.content_type());
    head.append("\r\nContent-Length: ");
    head.append(length.as_str());
    head.append("\r\n\r\n");
    let mut r = head.as_str().as_bytes_vec();
    r.append(&mut content);
    r
}

} // verus!
