//! Formatting of minimal HTTP/1.1 responses: a status line, a fixed
//! content type, a content length computed from the actual body, a
//! blank line, and then the body. No other header is emitted; every
//! exchange closes the connection afterwards.

use vstd::prelude::*;
use vstd::utf8::encode_utf8;
use crate::text::push_char;

verus! {

/// Decimal digit characters of `n`, most significant first.
pub open spec fn spec_dec(n: nat) -> Seq<char>
    decreases n,
{
    if n < 10 {
        seq![(((0x30 + n) as u8) as char)]
    } else {
        spec_dec(n / 10) + seq![(((0x30 + n % 10) as u8) as char)]
    }
}

/// Write `n` in decimal.
pub fn u64_to_dec(n: u64) -> (r: String)
    ensures
        r@ == spec_dec(n as nat),
    decreases n,
{
    let d: u8 = (n % 10) as u8 + 0x30;
    if n < 10 {
        let mut s = String::new();
        push_char(&mut s, d as char);
        proof {
            assert(s@ =~= spec_dec(n as nat));
        }
        s
    } else {
        let mut s = u64_to_dec(n / 10);
        push_char(&mut s, d as char);
        s
    }
}

/// The head of a response: status line, content type, content length
/// and the blank line that ends the header block.
pub open spec fn spec_response_head(status: Seq<char>, ctype: Seq<char>, len: nat) -> Seq<char> {
    "HTTP/1.1 "@ + status + "\r\nContent-Type: "@ + ctype + "\r\nContent-Length: "@ + spec_dec(
        len,
    ) + "\r\n\r\n"@
}

/// Format a response head for the given status, content type and
/// content length.
pub fn build_response_head(status: &str, content_type: &str, content_length: u64) -> (r: String)
    ensures
        r@ == spec_response_head(status@, content_type@, content_length as nat),
{
    let mut h = String::from_str("HTTP/1.1 ");
    h.append(status);
    h.append("\r\nContent-Type: ");
    h.append(content_type);
    h.append("\r\nContent-Length: ");
    let len_str = u64_to_dec(content_length);
    h.append(len_str.as_str());
    h.append("\r\n\r\n");
    proof {
        assert(h@ =~= spec_response_head(status@, content_type@, content_length as nat));
    }
    h
}

/// The bytes of a whole plain-text response, as the error paths and
/// the over-capacity path send it.
pub open spec fn spec_simple_response(status: Seq<char>, body: Seq<char>) -> Seq<u8> {
    encode_utf8(
        spec_response_head(status, "text/plain; charset=UTF-8"@, encode_utf8(body).len()),
    ) + encode_utf8(body)
}

/// Format a whole plain-text response: head and body.
pub fn build_simple_response(status: &str, body: &str) -> (r: Vec<u8>)
    ensures
        r@ == spec_simple_response(status@, body@),
{
    let mut body_bytes = body.as_bytes_vec();
    let body_len = body_bytes.len() as u64;
    let head = build_response_head(status, "text/plain; charset=UTF-8", body_len);
    let mut out = head.as_str().as_bytes_vec();
    out.append(&mut body_bytes);
    proof {
        assert(out@ =~= spec_simple_response(status@, body@));
    }
    out
}

/// The bytes of a success response for a file with the given bytes:
/// an HTML head, then the file itself as body when `include_body`
/// holds (`GET`), and no body otherwise (`HEAD`). The content length
/// names the file's size either way.
pub open spec fn spec_file_response(body: Seq<u8>, include_body: bool) -> Seq<u8> {
    let head = encode_utf8(
        spec_response_head("200 OK"@, "text/html; charset=UTF-8"@, body.len()),
    );
    if include_body {
        head + body
    } else {
        head
    }
}

/// Format the success response for a served file.
pub fn build_file_response(body: &Vec<u8>, include_body: bool) -> (r: Vec<u8>)
    ensures
        r@ == spec_file_response(body@, include_body),
{
    let head = build_response_head("200 OK", "text/html; charset=UTF-8", body.len() as u64);
    let mut out = head.as_str().as_bytes_vec();
    if include_body {
        let mut body_bytes: Vec<u8> = Vec::new();
        let mut i: usize = 0;
        let n = body.len();
        while i < n
            invariant
                n == body@.len(),
                0 <= i <= n,
                body_bytes@ =~= body@.subrange(0, i as int),
            decreases n - i,
        {
            body_bytes.push(body[i]);
            i = i + 1;
        }
        proof {
            assert(body_bytes@ =~= body@);
        }
        out.append(&mut body_bytes);
    }
    out
}

} // verus!
