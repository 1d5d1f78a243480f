//! The request-dispatch side of the client: the method an outgoing
//! call uses, the pending request read from editor state at send time,
//! the outcome a completed call delivers, and the deterministic
//! formatting of a response body for display.
//!
//! The network call itself is performed outside this crate; here stand
//! only the values handed to the transport and the handling of what
//! comes back.

use vstd::prelude::*;

verus! {

/// The HTTP methods the method picker offers.
#[derive(Debug, Copy, Clone, PartialEq, Eq, Structural)]
pub enum Method {
    Get,
    Post,
    Put,
    Delete,
    Patch,
    Head,
    Options,
}

/// One outgoing call, read from the editors at send time; not
/// persisted as a standing entity.
#[derive(Debug)]
pub struct PendingRequest {
    pub method: Method,
    pub uri: String,
    pub body: String,
}

/// The delivered result of one dispatched call: either a completed
/// response or a display-ready error message.
pub enum Outcome {
    Success { status: u16, body: String, elapsed_ms: u64 },
    Failure { message: String },
}

/// What pretty-printing a JSON document yields: `Some` of the
/// reformatted text exactly when the input parses as JSON. The result
/// depends on the input text alone.
pub uninterp spec fn json_pretty(s: Seq<char>) -> Option<Seq<char>>;

/// Relies on `serde_json::from_str::<Value>` and
/// `serde_json::to_string_pretty`: whether a text parses as JSON and
/// what its pretty-printed form is depend on the text alone.
#[verifier::external_body]
fn prettify_json(s: &String) -> (r: Option<String>)
    ensures
        match r {
            Some(t) => json_pretty(s@) == Some(t@),
            None => json_pretty(s@) is None,
        },
{
    match serde_json::from_str::<serde_json::Value>(s.as_str()) {
        Ok(v) => match serde_json::to_string_pretty(&v) {
            Ok(t) => Some(t),
            Err(_) => None,
        },
        Err(_) => None,
    }
}

/// The display form of a response body: the pretty-printed document
/// when the body parses as structured JSON, the raw text verbatim
/// otherwise. An unparsable body is not an error.
pub open spec fn formatted_body(s: Seq<char>) -> Seq<char> {
    match json_pretty(s) {
        Some(p) => p,
        None => s,
    }
}

/// Reformats a response body for display, falling back to the raw
/// text when it is not JSON.
pub fn format_body(raw: String) -> (r: String)
    ensures
        r@ == formatted_body(raw@),
{
    match prettify_json(&raw) {
        Some(t) => t,
        None => raw,
    }
}

/// Relies on `String::from_iter` over `core::iter`: collects exactly
/// the characters of `v`, in order, into a `String`.
#[verifier::external_body]
pub fn chars_to_string(v: &Vec<char>) -> (r: String)
    ensures
        r@ == v@,
{
    v.iter().collect()
}

/// The user-facing message shown when a URI is malformed or the
/// transport cannot reach it.
pub fn uri_error_message() -> (r: String)
    ensures
        r@ == "Invalid or unavailable URI (Make sure to include the url scheme, for example: http://)"@,
{
    String::from_str(
        "Invalid or unavailable URI (Make sure to include the url scheme, for example: http://)",
    )
}

} // verus!
