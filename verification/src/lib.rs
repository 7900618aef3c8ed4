//! A minimal HTTP/1.1 static-file server core.
//!
//! The library holds the verified request-handling logic: decoding the raw
//! request bytes, parsing the request line, resolving a URL path to the
//! candidate files under the root folder, deciding the status, and building
//! the wire response. The surrounding program supplies the socket and
//! filesystem reads and hands their results in as plain values.

mod digits;
mod handler;
mod paths;
mod request;
mod response;
mod status;
mod text;

pub use digits::{dec_rep, dec_string, dec_value, digit_char, digit_val, lemma_dec_rep_value};
pub use handler::{
    contents_of, get_response, get_response_of, get_status_of, handle_spec, handle_status_spec,
    lemma_missing, lemma_not_allowed, lemma_not_found_collision, lemma_served_fallback,
    lemma_served_primary, respond,
};
pub use paths::{
    fallback_target, fallback_target_spec, primary_target, primary_target_spec, strip_first_slash,
    strip_slash,
};
pub use request::{
    Request, is_get, lossy_of, method_of, parse_request, parse_request_bytes, path_of,
    request_line, well_formed,
};
pub use response::{
    build_response, not_allowed_response, not_allowed_response_spec, protocol, protocol_spec,
    response_spec, status_of_contents, status_of_spec,
};
pub use status::HttpStatus;
pub use text::{
    after_char, after_str, before_char, before_str, contains_char, find_char, first_index,
    lemma_first_index,
};
