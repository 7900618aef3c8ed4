//! The request-handling decision, from the parsed request and the file
//! reads to the response on the wire.
//!
//! The surrounding program reads the sockets and the files; the decision of
//! what to send back lives here. For a `GET`, the contents served are the
//! primary target's text when it could be read, else the fallback target's
//! text, else the literal `Not Found`; the status is then inferred from the
//! contents. Any other method gets the bare method-not-allowed response.

use vstd::prelude::*;
use vstd::string::StringExecFns;
use vstd::utf8::encode_utf8;
use vstd::utf8::is_ascii_chars;
use vstd::utf8::is_ascii_chars_encode_utf8;
use crate::response::build_response;
use crate::response::not_allowed_response;
use crate::response::not_allowed_response_spec;
use crate::response::response_spec;
use crate::response::status_of_contents;
use crate::response::status_of_spec;
use crate::status::HttpStatus;

verus! {

/// The contents served for a `GET`: the primary read if it succeeded, else
/// the fallback read, else the literal `Not Found`.
pub open spec fn contents_of(primary: Option<Seq<char>>, fallback: Option<Seq<char>>) -> Seq<
    char,
> {
    match primary {
        Some(c) => c,
        None => match fallback {
            Some(c) => c,
            None => "Not Found"@,
        },
    }
}

/// The status reported for a `GET`, inferred from the contents served.
pub open spec fn get_status_of(primary: Option<Seq<char>>, fallback: Option<Seq<char>>) -> HttpStatus {
    status_of_spec(contents_of(primary, fallback))
}

/// The wire response for a `GET`, given the two file reads.
pub open spec fn get_response_of(primary: Option<Seq<char>>, fallback: Option<Seq<char>>) -> Seq<
    char,
> {
    response_spec(get_status_of(primary, fallback), contents_of(primary, fallback))
}

/// The wire response for any request, given the method token and the two
/// file reads.
pub open spec fn handle_spec(
    method: Seq<char>,
    primary: Option<Seq<char>>,
    fallback: Option<Seq<char>>,
) -> Seq<char> {
    if method == "GET"@ {
        get_response_of(primary, fallback)
    } else {
        not_allowed_response_spec()
    }
}

/// The status logged for any request.
pub open spec fn handle_status_spec(
    method: Seq<char>,
    primary: Option<Seq<char>>,
    fallback: Option<Seq<char>>,
) -> HttpStatus {
    if method == "GET"@ {
        get_status_of(primary, fallback)
    } else {
        HttpStatus::MethodNotAllowed
    }
}

/// Builds the `GET` response and its status from the two file reads.
pub fn get_response(primary: Option<String>, fallback: Option<String>) -> (r: (String, HttpStatus))
    ensures
        r.0@ == get_response_of(primary.deep_view(), fallback.deep_view()),
        r.1 == get_status_of(primary.deep_view(), fallback.deep_view()),
{
    let contents = match primary {
        Some(c) => c,
        None => match fallback {
            Some(c) => c,
            None => String::from_str("Not Found"),
        },
    };
    let status = status_of_contents(contents.as_str());
    let response = build_response(status, contents.as_str());
    (response, status)
}

/// Builds the response and its status for any request, given the method
/// token and the two file reads.
pub fn respond(method: &str, primary: Option<String>, fallback: Option<String>) -> (r: (
    String,
    HttpStatus,
))
    ensures
        r.0@ == handle_spec(method@, primary.deep_view(), fallback.deep_view()),
        r.1 == handle_status_spec(method@, primary.deep_view(), fallback.deep_view()),
{
    if crate::request::is_get(method) {
        get_response(primary, fallback)
    } else {
        (not_allowed_response(), HttpStatus::MethodNotAllowed)
    }
}

/// A `GET` whose primary target was read, with contents other than the
/// literal `Not Found`, is answered 200 with exactly those contents and
/// their byte count as `Content-Length`, whatever the fallback read gave.
pub proof fn lemma_served_primary(c: Seq<char>, fallback: Option<Seq<char>>)
    requires
        c != "Not Found"@,
    ensures
        get_status_of(Some(c), fallback) == HttpStatus::Success,
        get_response_of(Some(c), fallback) == response_spec(HttpStatus::Success, c),
{
}

/// A `GET` whose primary target could not be read but whose fallback
/// target was, with contents other than the literal `Not Found`, is
/// answered 200 with exactly the fallback contents.
pub proof fn lemma_served_fallback(c: Seq<char>)
    requires
        c != "Not Found"@,
    ensures
        get_status_of(None, Some(c)) == HttpStatus::Success,
        get_response_of(None, Some(c)) == response_spec(HttpStatus::Success, c),
{
}

/// A `GET` for which neither candidate file could be read is answered 404
/// with the nine-byte body `Not Found`.
pub proof fn lemma_missing()
    ensures
        get_status_of(None, None) == HttpStatus::NotFound,
        get_response_of(None, None) == response_spec(HttpStatus::NotFound, "Not Found"@),
        encode_utf8("Not Found"@).len() == 9,
{
    reveal_strlit("Not Found");
    assert(is_ascii_chars("Not Found"@));
    is_ascii_chars_encode_utf8("Not Found"@);
}

/// A read that succeeded with contents that are exactly the literal
/// `Not Found` is still reported as 404: the status is inferred from the
/// contents, so such a file is indistinguishable from a missing one.
pub proof fn lemma_not_found_collision(primary: Option<Seq<char>>, fallback: Option<Seq<char>>)
    requires
        primary == Some("Not Found"@) || (primary is None && fallback == Some("Not Found"@)),
    ensures
        get_status_of(primary, fallback) == HttpStatus::NotFound,
        get_response_of(primary, fallback) == get_response_of(None, None),
{
}

/// A request whose method is anything but `GET` is answered with the bare
/// method-not-allowed response, whatever the path and whatever the file
/// reads gave: no header, no body.
pub proof fn lemma_not_allowed(
    method: Seq<char>,
    primary: Option<Seq<char>>,
    fallback: Option<Seq<char>>,
)
    requires
        method != "GET"@,
    ensures
        handle_spec(method, primary, fallback) == not_allowed_response_spec(),
        handle_status_spec(method, primary, fallback) == HttpStatus::MethodNotAllowed,
        not_allowed_response_spec() =~= "HTTP1/1 405 NOT ALLOWED\r\n\r\n"@,
{
    reveal_strlit("HTTP1/1");
    reveal_strlit(" ");
    reveal_strlit("405 NOT ALLOWED");
    reveal_strlit("\r\n\r\n");
    reveal_strlit("HTTP1/1 405 NOT ALLOWED\r\n\r\n");
}

} // verus!
