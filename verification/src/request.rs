//! Decoding the raw request bytes and parsing the request line.
//!
//! The first line of the decoded text is split on single spaces: the first
//! token is the method, the second is the path. A line without a space has
//! no path token and is rejected as malformed.

use vstd::prelude::*;
use vstd::string::StrSliceExecFns;
use vstd::string::StringExecFns;
use vstd::utf8::decode_utf8;
use vstd::utf8::valid_utf8;
use crate::text::after_char;
use crate::text::after_str;
use crate::text::before_char;
use crate::text::before_str;
use crate::text::contains_char;

verus! {

/// What `String::from_utf8_lossy` makes of a byte sequence: it depends on
/// the bytes alone.
pub uninterp spec fn lossy_of(b: Seq<u8>) -> Seq<char>;

/// Relies on `String::from_utf8_lossy`: the decoding is a function of the
/// bytes alone, and bytes that are valid UTF-8 decode exactly, with no
/// substitution.
#[verifier::external_body]
pub(crate) fn decode_lossy(b: &[u8]) -> (r: String)
    ensures
        r@ == lossy_of(b@),
        valid_utf8(b@) ==> r@ == decode_utf8(b@),
{
    String::from_utf8_lossy(b).into_owned()
}

/// The request line: the decoded text up to the first newline. A carriage
/// return before the newline stays on the line; it ends up in the third
/// token of the line and is never part of the method or the path.
pub open spec fn request_line(s: Seq<char>) -> Seq<char> {
    before_char(s, '\n')
}

/// A request line is well formed when it has a second token, that is, when
/// it contains a space.
pub open spec fn well_formed(s: Seq<char>) -> bool {
    contains_char(request_line(s), ' ')
}

/// The first token of the request line.
pub open spec fn method_of(s: Seq<char>) -> Seq<char> {
    before_char(request_line(s), ' ')
}

/// The second token of the request line.
pub open spec fn path_of(s: Seq<char>) -> Seq<char> {
    before_char(after_char(request_line(s), ' '), ' ')
}

/// The method and path tokens of one request.
pub struct Request {
    pub method: String,
    pub path: String,
}

/// Splits the first line of the decoded request text into its method and
/// path tokens; `None` exactly when the line has no second token.
pub fn parse_request(s: &str) -> (r: Option<Request>)
    ensures
        r is Some <==> well_formed(s@),
        r matches Some(req) ==> req.method@ == method_of(s@) && req.path@ == path_of(s@),
{
    let line = before_str(s, '\n');
    let i = crate::text::find_char(line, ' ');
    let n = line.unicode_len();
    proof {
        crate::text::lemma_first_index(line@, ' ');
    }
    if i == n {
        None
    } else {
        let method = line.substring_char(0, i);
        let rest = after_str(line, ' ');
        let path = before_str(rest, ' ');
        assert(method@ =~= method_of(s@));
        Some(Request { method: String::from_str(method), path: String::from_str(path) })
    }
}

/// Decodes the raw request bytes leniently, then parses the request line.
pub fn parse_request_bytes(b: &[u8]) -> (r: Option<Request>)
    ensures
        r is Some <==> well_formed(lossy_of(b@)),
        r matches Some(req) ==> req.method@ == method_of(lossy_of(b@)) && req.path@ == path_of(
            lossy_of(b@),
        ),
{
    let s = decode_lossy(b);
    parse_request(s.as_str())
}

/// Whether the method token is exactly `GET`.
pub fn is_get(method: &str) -> (b: bool)
    ensures
        b == (method@ == "GET"@),
{
    let m = String::from_str(method);
    let g = String::from_str("GET");
    m == g
}

} // verus!
