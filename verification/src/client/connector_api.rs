//! The client's side of the connector's HTTP API: where requests go and what an
//! answer's status means. Sending and decoding happen around these functions.

use vstd::prelude::*;
use crate::text::concat2;

verus! {

/// The connector's answer to a nickname: the nickname and the new session.
#[derive(Debug, Clone, PartialEq, Eq)]
pub struct AuthResponse {
    pub nickname: String,
    pub session_id: String,
}

/// The connector's answer to creating or joining a room: where to connect and with
/// which session and token.
#[derive(Debug, Clone, PartialEq, Eq)]
pub struct SignalingReadyResponse {
    pub signaling_url: String,
    pub session_id: String,
    pub token: String,
}

/// `s` without all its trailing `/` (`str::trim_end_matches('/')`).
pub open spec fn trim_trailing_slashes(s: Seq<char>) -> Seq<char>
    decreases s.len(),
{
    if s.len() > 0 && s.last() == '/' {
        trim_trailing_slashes(s.drop_last())
    } else {
        s
    }
}

/// The URL of `path`: behind the configured base, without its trailing slashes, when
/// a non-empty base is configured; `path` itself otherwise.
pub open spec fn spec_endpoint(base: Option<Seq<char>>, path: Seq<char>) -> Seq<char> {
    match base {
        Some(b) => if b.len() > 0 { trim_trailing_slashes(b) + path } else { path },
        None => path,
    }
}

/// The URL a request for `path` goes to, given the base URL the client was built with.
pub fn endpoint(base: Option<&str>, path: &str) -> (r: String)
    ensures
        r@ == spec_endpoint(match base { Some(b) => Some(b@), None => None }, path@),
{
    match base {
        Some(b) => {
            let n = b.unicode_len();
            if n == 0 {
                return String::from_str(path);
            }
            let mut end: usize = n;
            proof {
                assert(b@.take(n as int) =~= b@);
            }
            while end > 0 && b.get_char(end - 1) == '/'
                invariant
                    n == b@.len(),
                    end <= n,
                    trim_trailing_slashes(b@.take(end as int)) == trim_trailing_slashes(b@),
                decreases end,
            {
                proof {
                    assert(b@.take(end as int).drop_last() =~= b@.take(end - 1));
                }
                end = end - 1;
            }
            proof {
                assert(b@.take(n as int) =~= b@);
                assert(b@.subrange(0, end as int) =~= b@.take(end as int));
            }
            concat2(b.substring_char(0, end), path)
        },
        None => String::from_str(path),
    }
}

/// A status in 200..300 is a success.
pub open spec fn is_success(status: u16) -> bool {
    200 <= status < 300
}

/// The message shown for a failed status when the answer carries none.
pub open spec fn spec_status_error_message(status: u16) -> Seq<char> {
    if status == 500 {
        "Internal error. Please try again."@
    } else if status == 502 || status == 503 || status == 504 {
        "Service unavailable. Please try again."@
    } else {
        "Service error. Please try again."@
    }
}

/// The message shown for a failed status when the answer carries none.
pub fn status_error_message(status: u16) -> (r: &'static str)
    ensures
        r@ == spec_status_error_message(status),
{
    match status {
        500 => "Internal error. Please try again.",
        502 | 503 | 504 => "Service unavailable. Please try again.",
        _ => "Service error. Please try again.",
    }
}

/// Whether an answer with `status` succeeded.
pub fn status_is_success(status: u16) -> (r: bool)
    ensures
        r == is_success(status),
{
    200 <= status && status < 300
}

/// The error of a failed answer: the message of its error payload when it has one,
/// else the status's message.
pub fn failure_message(status: u16, payload_message: Option<String>) -> (r: String)
    ensures
        r@ == match payload_message {
            Some(m) => m@,
            None => spec_status_error_message(status),
        },
{
    match payload_message {
        Some(m) => m,
        None => String::from_str(status_error_message(status)),
    }
}

/// The error of a successful answer whose body cannot be read.
pub const INVALID_RESPONSE_MESSAGE: &'static str = "Internal error: invalid service response format.";

} // verus!
