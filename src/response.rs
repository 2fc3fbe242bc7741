use vstd::prelude::*;
use crate::json::{describe_json_error, json_string_at, opt_view, string_at};

verus! {

/// Where the generated markup stands in a reply: `choices[0].message.content`.
pub open spec fn content_pointer() -> Seq<char> {
    "/choices/0/message/content"@
}

/// The words put before the body of a rejected request.
pub open spec fn rejection_prefix() -> Seq<char> {
    "Request failed with status: "@
}

/// The error text for a rejected request with the given body.
pub open spec fn rejection_text(body: Seq<char>) -> Seq<char> {
    rejection_prefix() + body
}

/// A 2xx status.
pub open spec fn is_success(status: u16) -> bool {
    200 <= status && status <= 299
}

/// The markup for what was found at the content pointer: the string itself,
/// or the empty string where none was found.
pub open spec fn markup_of(found: Option<Seq<char>>) -> Seq<char> {
    match found {
        Some(v) => v,
        None => Seq::empty(),
    }
}

/// How the single network call of a request ended.
#[derive(Debug)]
pub enum Outcome {
    /// The transport failed (DNS, connection, TLS, time-out, reading the
    /// body); `description` is what the transport said.
    TransportFailed { description: String },
    /// The remote service answered with this status and body.
    Responded { status: u16, body: String },
}

/// Whether `r` is the result owed for `outcome`. Where the reply is not JSON
/// the error's wording is the parser's, so only its kind is fixed.
pub open spec fn settles(outcome: Outcome, r: Result<String, String>) -> bool {
    match outcome {
        Outcome::TransportFailed { description } => r == Err::<String, String>(description),
        Outcome::Responded { status, body } => if !is_success(status) {
            r matches Err(e) && e@ == rejection_text(body@)
        } else {
            match json_string_at(body@, content_pointer()) {
                None => r is Err,
                Some(found) => r matches Ok(m) && m@ == markup_of(found),
            }
        },
    }
}

/// Tells a 2xx status from the others.
pub fn status_is_success(status: u16) -> (r: bool)
    ensures
        r == is_success(status),
{
    200 <= status && status <= 299
}

/// The markup for what a lookup at the content pointer found: the string, or
/// the empty string where there was none.
pub fn markup_or_empty(found: Option<String>) -> (r: String)
    ensures
        r@ == markup_of(opt_view(found)),
{
    match found {
        Some(v) => v,
        None => String::new(),
    }
}

/// The error text for a non-2xx reply: the fixed prefix, then the body as it
/// came.
pub fn rejection_message(body: &str) -> (r: String)
    ensures
        r@ == rejection_text(body@),
{
    let mut r = String::from_str("Request failed with status: ");
    r.append(body);
    r
}

/// Reads the generated markup out of the body of a 2xx reply: the string at
/// `choices[0].message.content`, the empty string where there is none, an
/// error where the body is not JSON.
pub fn completion_markup(body: &str) -> (r: Result<String, String>)
    ensures
        json_string_at(body@, content_pointer()) is None <==> r is Err,
        json_string_at(body@, content_pointer()) matches Some(found) ==> (r matches Ok(m)
            && m@ == markup_of(found)),
{
    match string_at(body, "/choices/0/message/content") {
        Ok(found) => Ok(markup_or_empty(found)),
        Err(e) => Err(describe_json_error(&e)),
    }
}

/// The result of a request from how its network call ended.
pub fn settle(outcome: Outcome) -> (r: Result<String, String>)
    ensures
        settles(outcome, r),
{
    match outcome {
        Outcome::TransportFailed { description } => Err(description),
        Outcome::Responded { status, body } => {
            if status_is_success(status) {
                completion_markup(body.as_str())
            } else {
                Err(rejection_message(body.as_str()))
            }
        },
    }
}

} // verus!
