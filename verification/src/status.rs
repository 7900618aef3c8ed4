//! The fixed HTTP statuses that the server emits.

use vstd::prelude::*;
use vstd::string::StringExecFns;

verus! {

/// The three statuses this server can answer with.
#[derive(Clone, Copy, Debug, PartialEq, Eq, Structural)]
pub enum HttpStatus {
    Success,
    NotFound,
    MethodNotAllowed,
}

impl HttpStatus {
    /// The numeric status code.
    pub open spec fn code_spec(self) -> u32 {
        match self {
            HttpStatus::Success => 200,
            HttpStatus::NotFound => 404,
            HttpStatus::MethodNotAllowed => 405,
        }
    }

    /// The status line fragment, code and reason phrase.
    pub open spec fn full_msg_spec(self) -> Seq<char> {
        match self {
            HttpStatus::Success => "200 OK"@,
            HttpStatus::NotFound => "404 NOT FOUND"@,
            HttpStatus::MethodNotAllowed => "405 NOT ALLOWED"@,
        }
    }

    pub fn code(self) -> (c: u32)
        ensures
            c == self.code_spec(),
    {
        match self {
            HttpStatus::Success => 200,
            HttpStatus::NotFound => 404,
            HttpStatus::MethodNotAllowed => 405,
        }
    }

    /// The code followed by the reason phrase, as written on the status line.
    pub fn full_msg(self) -> (m: String)
        ensures
            m@ == self.full_msg_spec(),
    {
        match self {
            HttpStatus::Success => String::from_str("200 OK"),
            HttpStatus::NotFound => String::from_str("404 NOT FOUND"),
            HttpStatus::MethodNotAllowed => String::from_str("405 NOT ALLOWED"),
        }
    }
}

} // verus!
