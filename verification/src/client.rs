//! What the HTTP client decides: request URLs and the typed error that a
//! non-success status becomes. The transport itself lives with the caller.

use vstd::prelude::*;
use vstd::string::*;
use crate::models::common::opt_view;
use crate::text::{decimal, decimal_string};

verus! {

/// A known API error that can be displayed as structured output in AXI mode.
#[derive(Debug)]
pub struct ApiError {
    /// HTTP status code (401, 403, 404, 422, 429, or any other non-success code).
    pub status_code: u16,
    /// Human-readable error message.
    pub message: String,
}

/// How an API error reads in an error chain: the message, then the status code in
/// parentheses, as `MESSAGE (HTTP CODE)`.
pub open spec fn api_error_text(e: ApiError) -> Seq<char> {
    e.message@ + " (HTTP "@ + decimal(e.status_code as nat) + ")"@
}

impl ApiError {
    /// The error as it reads in an error chain.
    pub fn display_text(&self) -> (s: String)
        ensures
            s@ == api_error_text(*self),
    {
        let mut s = self.message.clone();
        s.append(" (HTTP ");
        let code = decimal_string(self.status_code as u64);
        s.append(code.as_str());
        s.append(")");
        s
    }
}

/// The reason phrase the `http` crate registers for a status code, if it has one.
pub uninterp spec fn status_reason(code: u16) -> Option<Seq<char>>;

/// The reason phrase of a status code, from `reqwest::StatusCode::canonical_reason`.
/// Claimed: the result is `status_reason(code)`, a function of the code alone; the
/// phrases themselves are the `http` crate's table and are not stated here.
#[verifier::external_body]
fn canonical_reason(code: u16) -> (reason: Option<String>)
    requires
        100 <= code <= 999,
    ensures
        match reason {
            Some(r) => status_reason(code) == Some(r@),
            None => status_reason(code) is None,
        },
{
    match reqwest::StatusCode::from_u16(code) {
        Ok(status) => status.canonical_reason().map(String::from),
        Err(_) => None,
    }
}

/// How a status code prints given its reason phrase: the number, a space, and the
/// phrase or `<unknown status code>`.
pub open spec fn status_line_text(code: u16, reason: Option<Seq<char>>) -> Seq<char> {
    decimal(code as nat) + " "@ + match reason {
        Some(r) => r,
        None => "<unknown status code>"@,
    }
}

/// How a status code prints (`StatusCode`'s `Display`).
pub open spec fn status_text(code: u16) -> Seq<char> {
    status_line_text(code, status_reason(code))
}

/// Lays out a status line from the code and its reason phrase, if it has one.
pub fn status_line(code: u16, reason: &Option<String>) -> (s: String)
    ensures
        s@ == status_line_text(code, opt_view(*reason)),
{
    let mut s = decimal_string(code as u64);
    s.append(" ");
    match reason {
        Some(r) => s.append(r.as_str()),
        None => s.append("<unknown status code>"),
    }
    s
}

/// Renders a status code as `StatusCode`'s `Display` does.
pub fn status_display(code: u16) -> (s: String)
    requires
        100 <= code <= 999,
    ensures
        s@ == status_text(code),
{
    let reason = canonical_reason(code);
    status_line(code, &reason)
}

/// A 2xx status: the request succeeded.
pub open spec fn is_success(code: u16) -> bool {
    200 <= code <= 299
}

/// The message for a failed request, by status class.
pub open spec fn failure_message(code: u16, url: Seq<char>, body: Seq<char>) -> Seq<char> {
    let status = status_text(code);
    if code == 401 || code == 403 {
        "Authentication failed (HTTP "@ + status + "): "@ + body
    } else if code == 404 {
        "Not found (HTTP "@ + status + "): "@ + body
    } else if code == 422 {
        "Validation error (HTTP "@ + status + "): "@ + body
    } else if code == 429 {
        "Rate limited (HTTP "@ + status + "): "@ + body
    } else {
        "API error (HTTP "@ + status + ") for "@ + url + ": "@ + body
    }
}

/// Turns a response status into success or a typed [`ApiError`]. `url` is the final
/// request URL and `body` the response text (empty when it could not be read).
pub fn check_status(code: u16, url: &str, body: &str) -> (r: Result<(), ApiError>)
    requires
        100 <= code <= 999,
    ensures
        r is Ok <==> is_success(code),
        r matches Err(e) ==> e.status_code == code && e.message@ == failure_message(code, url@, body@),
{
    if 200 <= code && code <= 299 {
        return Ok(());
    }
    let status = status_display(code);
    let mut message = if code == 401 || code == 403 {
        String::from_str("Authentication failed (HTTP ")
    } else if code == 404 {
        String::from_str("Not found (HTTP ")
    } else if code == 422 {
        String::from_str("Validation error (HTTP ")
    } else if code == 429 {
        String::from_str("Rate limited (HTTP ")
    } else {
        String::from_str("API error (HTTP ")
    };
    message.append(status.as_str());
    if code == 401 || code == 403 || code == 404 || code == 422 || code == 429 {
        message.append("): ");
    } else {
        message.append(") for ");
        message.append(url);
        message.append(": ");
    }
    message.append(body);
    Err(ApiError { status_code: code, message })
}

/// The absolute URL of an API path: the base URL followed by the path.
pub fn request_url(base_url: &str, path: &str) -> (url: String)
    ensures
        url@ == base_url@ + path@,
{
    let mut url = String::from_str(base_url);
    url.append(path);
    url
}

/// Exactly the 2xx statuses succeed. A failure's message names its class (an
/// authentication failure for 401 and 403, not found for 404, a validation error
/// for 422, rate limiting for 429), then the status line, then the response text;
/// for any other status the request URL stands before the response text.
pub proof fn law_status_classes(code: u16, url: Seq<char>, body: Seq<char>)
    ensures
        is_success(code) <==> 200 <= code <= 299,
        (code == 401 || code == 403) ==> failure_message(code, url, body) == "Authentication failed (HTTP "@ + status_text(code) + "): "@ + body,
        code == 404 ==> failure_message(code, url, body) == "Not found (HTTP "@ + status_text(code) + "): "@ + body,
        code == 422 ==> failure_message(code, url, body) == "Validation error (HTTP "@ + status_text(code) + "): "@ + body,
        code == 429 ==> failure_message(code, url, body) == "Rate limited (HTTP "@ + status_text(code) + "): "@ + body,
        !(code == 401 || code == 403 || code == 404 || code == 422 || code == 429) ==>
            failure_message(code, url, body) == "API error (HTTP "@ + status_text(code) + ") for "@ + url + ": "@ + body,
{
}

} // verus!
