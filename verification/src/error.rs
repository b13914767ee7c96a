//! The errors this library produces, their text, and which of them justify
//! trying the next API key.

use vstd::prelude::*;

use crate::text::{append, debug_quote, debug_quoted, decimal, decimal_text};
use crate::time::{duration_debug, TimeSpan};

verus! {

/// All errors this crate produces.
#[derive(Debug)]
pub enum Error {
    /// All provided API keys failed; holds the text of the last failure.
    AllKeysFailed(String),
    /// HTTP transport error; holds the transport error's text.
    Http(String),
    /// JSON serialization or deserialization error; holds the parser's text.
    Json(String),
    /// Apify answered with an HTTP error status.
    ApiStatus {
        /// The HTTP status code.
        status: u16,
        /// The response body, cut to its first 400 characters.
        body: String,
    },
    /// The actor run ended with a status other than success.
    RunFailed(String),
    /// Waiting for the run exceeded the wait limit held here.
    Timeout(TimeSpan),
    /// The actor id holds characters that are not allowed.
    InvalidActorId(String),
    /// No API keys were provided.
    NoKeys,
}

/// The number of characters of an error response body that an
/// `Error::ApiStatus` keeps.
pub const BODY_KEEP: usize = 400;

/// The first `n` characters of `s` (all of `s` when it is shorter).
pub open spec fn first_chars(s: Seq<char>, n: nat) -> Seq<char> {
    if s.len() <= n {
        s
    } else {
        s.take(n as int)
    }
}

/// The statuses that mark a bad request: the same request fails the same way
/// with every key.
pub open spec fn is_request_error_status(status: u16) -> bool {
    status == 400 || status == 404 || status == 405 || status == 422
}

/// Whether a submit failure justifies trying the next API key: every error
/// except an HTTP error status that marks a bad request.
pub open spec fn rotates_key(e: &Error) -> bool {
    match e {
        Error::ApiStatus { status, .. } => !is_request_error_status(*status),
        _ => true,
    }
}

/// `t` is the text of `e`.
pub open spec fn describes(e: &Error, t: Seq<char>) -> bool {
    match e {
        Error::AllKeysFailed(s) => t == "all keys failed; last error: "@ + s@,
        Error::Http(s) => t == "http error: "@ + s@,
        Error::Json(s) => t == "json error: "@ + s@,
        Error::ApiStatus { status, body } => t == "Apify HTTP "@ + decimal(*status as nat) + ": "@
            + body@,
        Error::RunFailed(s) => t == "actor run finished with status "@ + s@,
        Error::Timeout(d) => t == "actor run timed out after "@ + duration_debug(
            d.spec_secs(),
            d.spec_subsec_nanos(),
        ),
        Error::InvalidActorId(s) => t == "invalid actor id: "@ + debug_quoted(s@),
        Error::NoKeys => t == "no API keys provided"@,
    }
}

/// Whether a submit failure justifies trying the next API key.
///
/// Bad-request errors (400, 404, 405, 422) are the same for every key, so
/// they are surfaced at once; everything else (auth, exhausted credit, rate
/// limit, server errors, transport and parse failures) may depend on the key
/// or the attempt.
pub fn should_rotate_key(e: &Error) -> (r: bool)
    ensures
        r == rotates_key(e),
        e matches Error::ApiStatus { status, .. } ==> (r <==> !(status == 400 || status == 404
            || status == 405 || status == 422)),
        !(e is ApiStatus) ==> r,
{
    match e {
        Error::ApiStatus { status, .. } => !(*status == 400 || *status == 404 || *status == 405
            || *status == 422),
        _ => true,
    }
}

/// The error for an HTTP error status, keeping the first 400 characters of
/// the response body.
pub fn api_status_error(status: u16, body: &str) -> (r: Error)
    ensures
        r matches Error::ApiStatus { status: s, body: b } && s == status && b@ == first_chars(
            body@,
            BODY_KEEP as nat,
        ),
{
    let cs = crate::text::chars_of(body);
    let keep = if cs.len() <= BODY_KEEP {
        cs.len()
    } else {
        BODY_KEEP
    };
    let kept = crate::text::string_of(&cs, 0, keep);
    assert(cs@.subrange(0, cs@.len() as int) =~= cs@);
    Error::ApiStatus { status, body: kept }
}

/// `head` followed by `tail`.
fn starts_after(head: &str, tail: String) -> (r: String)
    ensures
        r@ == head@ + tail@,
{
    let mut s = crate::text::owned(head);
    append(&mut s, tail.as_str());
    s
}

impl Error {
    /// The text of this error, as its `Display` renders it.
    pub fn to_string(&self) -> (r: String)
        ensures
            describes(self, r@),
    {
        match self {
            Error::AllKeysFailed(s) => starts_after("all keys failed; last error: ", s.clone()),
            Error::Http(s) => starts_after("http error: ", s.clone()),
            Error::Json(s) => starts_after("json error: ", s.clone()),
            Error::ApiStatus { status, body } => {
                let mut t = crate::text::owned("Apify HTTP ");
                let code = decimal_text(*status as u64);
                append(&mut t, code.as_str());
                append(&mut t, ": ");
                append(&mut t, body.as_str());
                t
            },
            Error::RunFailed(s) => starts_after("actor run finished with status ", s.clone()),
            Error::Timeout(d) => starts_after("actor run timed out after ", d.debug_text()),
            Error::InvalidActorId(s) => starts_after("invalid actor id: ", debug_quote(s.as_str())),
            Error::NoKeys => crate::text::owned("no API keys provided"),
        }
    }
}

} // verus!
