//! Deciding the status and building the wire response.
//!
//! A response carrying contents is the protocol token, the status line
//! fragment, a `Content-Length` header counting the bytes of the body, a
//! blank line, and the body. The method-not-allowed response has no header
//! and no body. The status is inferred from the contents: a body that reads
//! exactly `Not Found` is reported as 404, even when it came from a real
//! file of that exact text.

use vstd::prelude::*;
use vstd::string::StrSliceExecFns;
use vstd::string::StringExecFns;
use vstd::utf8::encode_utf8;
use crate::digits::dec_rep;
use crate::digits::dec_string;
use crate::status::HttpStatus;

verus! {

/// The protocol token written on every status line.
pub open spec fn protocol_spec() -> Seq<char> {
    "HTTP1/1"@
}

/// The protocol token, as written on the wire.
pub fn protocol() -> (r: &'static str)
    ensures
        r@ == protocol_spec(),
{
    "HTTP1/1"
}

/// The status inferred from the contents: 404 exactly when they read
/// `Not Found`, 200 otherwise.
pub open spec fn status_of_spec(contents: Seq<char>) -> HttpStatus {
    if contents == "Not Found"@ {
        HttpStatus::NotFound
    } else {
        HttpStatus::Success
    }
}

/// Infers the status from the contents about to be served.
pub fn status_of_contents(contents: &str) -> (s: HttpStatus)
    ensures
        s == status_of_spec(contents@),
{
    let c = String::from_str(contents);
    let nf = String::from_str("Not Found");
    if c == nf {
        HttpStatus::NotFound
    } else {
        HttpStatus::Success
    }
}

/// The full response for a status and a body: status line, one
/// `Content-Length` header counting the bytes of the body, a blank line,
/// and the body.
pub open spec fn response_spec(status: HttpStatus, body: Seq<char>) -> Seq<char> {
    protocol_spec() + " "@ + status.full_msg_spec() + "\r\nContent-Length: "@ + dec_rep(
        encode_utf8(body).len() as int,
    ) + "\r\n\r\n"@ + body
}

/// The response for a request whose method is not `GET`: a status line and
/// a blank line, no header and no body.
pub open spec fn not_allowed_response_spec() -> Seq<char> {
    protocol_spec() + " "@ + HttpStatus::MethodNotAllowed.full_msg_spec() + "\r\n\r\n"@
}

/// Builds the wire response for a status and a body.
pub fn build_response(status: HttpStatus, body: &str) -> (r: String)
    ensures
        r@ == response_spec(status, body@),
{
    let mut r = String::from_str(protocol());
    r.append(" ");
    let msg = status.full_msg();
    r.append(msg.as_str());
    r.append("\r\nContent-Length: ");
    let bytes = body.as_bytes();
    let len = bytes.len();
    proof {
        vstd::slice::axiom_spec_len::<u8>(bytes);
    }
    let len_s = dec_string(len as u64);
    r.append(len_s.as_str());
    r.append("\r\n\r\n");
    r.append(body);
    assert(r@ =~= response_spec(status, body@));
    r
}

/// Builds the wire response for a request whose method is not `GET`.
pub fn not_allowed_response() -> (r: String)
    ensures
        r@ == not_allowed_response_spec(),
{
    let mut r = String::from_str(protocol());
    r.append(" ");
    let msg = HttpStatus::MethodNotAllowed.full_msg();
    r.append(msg.as_str());
    r.append("\r\n\r\n");
    assert(r@ =~= not_allowed_response_spec());
    r
}

} // verus!
