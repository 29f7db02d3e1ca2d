//! The bodies of the market's answers to requests that went wrong.
use crate::text::push_text;
use vstd::prelude::*;
use vstd::string::StringExecFns;

verus! {

/// An error answer: an HTTP status code and a message.
pub struct ErrorResponse {
    pub code: u32,
    pub message: String,
}

/// The first part of the message for a request that broke the server.
pub open spec fn server_error_preamble() -> Seq<char> {
    "Welp, it looks like either the server broke on it's own or you somehow managed to break the server by yourself. You'll be hearing from our lawyers.<br /><br />Just kidding, we can't afford lawyers.<br />The following caused an internal server error: '"@
}

/// The answer to a request for something that does not exist: 404, naming the path.
pub fn not_found(uri: &str) -> (r: ErrorResponse)
    ensures
        r.code == 404,
        r.message@ == "'"@ + uri@ + "' not found"@,
{
    let mut message = String::from_str("'");
    push_text(&mut message, uri);
    push_text(&mut message, "' not found");
    ErrorResponse { code: 404, message }
}

/// The answer to a request that broke the server: 500, quoting the request
/// (as its debug text).
pub fn internal_server_error(request: &str) -> (r: ErrorResponse)
    ensures
        r.code == 500,
        r.message@ == server_error_preamble() + request@ + "'."@,
{
    let mut message = String::from_str(
        "Welp, it looks like either the server broke on it's own or you somehow managed to break the server by yourself. You'll be hearing from our lawyers.<br /><br />Just kidding, we can't afford lawyers.<br />The following caused an internal server error: '",
    );
    push_text(&mut message, request);
    push_text(&mut message, "'.");
    ErrorResponse { code: 500, message }
}

} // verus!
