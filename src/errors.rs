//! User-facing messages for failed service calls.
use vstd::prelude::*;
use crate::json::{first_text, json_field, json_field_of, json_inner_field, json_inner_field_of, pick_first_text};
use crate::text::{byte_len, decimal, decimal_string, lowercase_of, to_lower};

verus! {

#[verifier::external_type_specification]
#[verifier::external_body]
pub struct ExRequestError(reqwest::Error);

/// Relies on `reqwest::Error::is_timeout`: whether the request timed out.
pub assume_specification[ reqwest::Error::is_timeout ](e: &reqwest::Error) -> bool;

/// Relies on `reqwest::Error::is_connect`: whether connecting failed.
pub assume_specification[ reqwest::Error::is_connect ](e: &reqwest::Error) -> bool;

/// Relies on `reqwest::Error::is_decode`: whether the response body could not be decoded.
pub assume_specification[ reqwest::Error::is_decode ](e: &reqwest::Error) -> bool;

/// The message a JSON error body carries: `error.message`, else `message`,
/// else `error`, whichever is a string first.
pub open spec fn error_message_of(body: Seq<char>) -> Option<String> {
    first_text(
        json_inner_field_of(body, "error"@, "message"@),
        json_field_of(body, "message"@),
        json_field_of(body, "error"@),
    )
}

/// Picks the message out of a JSON error body.
pub fn extract_error_message(body: &str) -> (r: Option<String>)
    ensures
        r == error_message_of(body@),
{
    let nested = json_inner_field(body, "error", "message");
    let message = json_field(body, "message");
    let error = json_field(body, "error");
    pick_first_text(nested, message, error)
}

/// The detail added to the message for a failed call: only a short, non-empty
/// body is searched.
pub open spec fn error_detail_of(body: Seq<char>) -> Option<Seq<char>> {
    if body.len() > 0 && byte_len(body) < 200 {
        match error_message_of(body) {
            Some(m) => Some(m@),
            None => None,
        }
    } else {
        None
    }
}

/// Icon, explanation and hint for an HTTP status of `service`.
pub open spec fn api_error_parts(service: Seq<char>, status: u16) -> (Seq<char>, Seq<char>, Seq<char>) {
    if status == 401 {
        ("🔑"@, "Invalid API key"@, "Run: fetchr config set-key "@ + lowercase_of(service) + " <YOUR_KEY>"@)
    } else if status == 403 {
        ("🚫"@, "Access denied"@, "Your API key may lack permissions or be revoked. Check your API dashboard."@)
    } else if status == 429 {
        ("⏳"@, "Rate limit exceeded"@, "Too many requests. Wait a moment and try again."@)
    } else if status == 503 || status == 502 || status == 504 {
        ("🔧"@, "Service temporarily unavailable"@, service + " is experiencing issues. Try again in a few minutes."@)
    } else if status == 500 {
        ("💥"@, "Server error"@, service + " encountered an internal error. This is not your fault."@)
    } else if status == 400 {
        ("❌"@, "Invalid request"@, "The search query may contain invalid characters."@)
    } else if status == 404 {
        ("🔍"@, "Not found"@, "The API endpoint may have changed. Check for updates."@)
    } else if status == 402 {
        ("💳"@, "Payment required"@, "Your API quota may be exhausted. Check your billing."@)
    } else {
        ("⚠️"@, "Request failed"@, "HTTP "@ + decimal(status as nat) + " - check your internet connection"@)
    }
}

/// The message for a failed call: a headline, a hint, and the detail the
/// service gave, if any.
pub open spec fn api_error_text(service: Seq<char>, status: u16, detail: Option<Seq<char>>) -> Seq<char> {
    let (icon, explanation, hint) = api_error_parts(service, status);
    icon + " "@ + service + " error: "@ + explanation + "\n   Hint: "@ + hint + match detail {
        Some(d) => "\n   Detail: "@ + d,
        None => Seq::empty(),
    }
}

/// Builds the message for a failed call from the detail already picked out.
pub fn api_error_message(service: &str, status: u16, detail: Option<&str>) -> (r: String)
    ensures
        r@ == api_error_text(service@, status, match detail {
            Some(d) => Some(d@),
            None => None,
        }),
{
    let (icon, explanation): (&str, &str) = if status == 401 {
        ("🔑", "Invalid API key")
    } else if status == 403 {
        ("🚫", "Access denied")
    } else if status == 429 {
        ("⏳", "Rate limit exceeded")
    } else if status == 503 || status == 502 || status == 504 {
        ("🔧", "Service temporarily unavailable")
    } else if status == 500 {
        ("💥", "Server error")
    } else if status == 400 {
        ("❌", "Invalid request")
    } else if status == 404 {
        ("🔍", "Not found")
    } else if status == 402 {
        ("💳", "Payment required")
    } else {
        ("⚠️", "Request failed")
    };
    let mut hint: String;
    if status == 401 {
        hint = String::from_str("Run: fetchr config set-key ");
        let lower = to_lower(service);
        hint.append(lower.as_str());
        hint.append(" <YOUR_KEY>");
    } else if status == 403 {
        hint = String::from_str("Your API key may lack permissions or be revoked. Check your API dashboard.");
    } else if status == 429 {
        hint = String::from_str("Too many requests. Wait a moment and try again.");
    } else if status == 503 || status == 502 || status == 504 {
        hint = String::from_str(service);
        hint.append(" is experiencing issues. Try again in a few minutes.");
    } else if status == 500 {
        hint = String::from_str(service);
        hint.append(" encountered an internal error. This is not your fault.");
    } else if status == 400 {
        hint = String::from_str("The search query may contain invalid characters.");
    } else if status == 404 {
        hint = String::from_str("The API endpoint may have changed. Check for updates.");
    } else if status == 402 {
        hint = String::from_str("Your API quota may be exhausted. Check your billing.");
    } else {
        hint = String::from_str("HTTP ");
        let n = decimal_string(status as u64);
        hint.append(n.as_str());
        hint.append(" - check your internet connection");
    }
    let mut msg = String::from_str(icon);
    msg.append(" ");
    msg.append(service);
    msg.append(" error: ");
    msg.append(explanation);
    msg.append("\n   Hint: ");
    msg.append(hint.as_str());
    match detail {
        Some(d) => {
            msg.append("\n   Detail: ");
            msg.append(d);
        },
        None => {},
    }
    msg
}

/// Formats a failed call of `service` that answered with `status`. A short,
/// non-empty body is searched for a JSON error message to add as detail.
pub fn format_api_error(service: &str, status: u16, body: &str) -> (r: String)
    ensures
        r@ == api_error_text(service@, status, error_detail_of(body@)),
{
    let detail = if !body.is_empty() && body.len() < 200 {
        extract_error_message(body)
    } else {
        None
    };
    let r = match &detail {
        Some(d) => api_error_message(service, status, Some(d.as_str())),
        None => api_error_message(service, status, None),
    };
    r
}

/// Icon, explanation and hint for a failed connection, by what failed first:
/// a timeout, then connecting, then decoding.
pub open spec fn network_error_text(service: Seq<char>, timeout: bool, connect: bool, decode: bool) -> Seq<char> {
    let (icon, explanation, hint) = if timeout {
        ("⏱️"@, "Connection timed out"@, service + " took too long to respond. Check your internet or try again."@)
    } else if connect {
        ("🌐"@, "Connection failed"@, "Check your internet connection."@)
    } else if decode {
        ("📦"@, "Invalid response"@, service + " returned unexpected data. The API may have changed."@)
    } else {
        ("❌"@, "Network error"@, "An unexpected network error occurred."@)
    };
    icon + " "@ + service + ": "@ + explanation + "\n   Hint: "@ + hint
}

/// Builds the message for a failed connection from what kind of failure it was.
pub fn network_error_message(service: &str, timeout: bool, connect: bool, decode: bool) -> (r: String)
    ensures
        r@ == network_error_text(service@, timeout, connect, decode),
{
    let mut msg: String;
    let mut hint: String;
    if timeout {
        msg = String::from_str("⏱️");
        hint = String::from_str(service);
        hint.append(" took too long to respond. Check your internet or try again.");
    } else if connect {
        msg = String::from_str("🌐");
        hint = String::from_str("Check your internet connection.");
    } else if decode {
        msg = String::from_str("📦");
        hint = String::from_str(service);
        hint.append(" returned unexpected data. The API may have changed.");
    } else {
        msg = String::from_str("❌");
        hint = String::from_str("An unexpected network error occurred.");
    }
    let explanation = if timeout {
        "Connection timed out"
    } else if connect {
        "Connection failed"
    } else if decode {
        "Invalid response"
    } else {
        "Network error"
    };
    msg.append(" ");
    msg.append(service);
    msg.append(": ");
    msg.append(explanation);
    msg.append("\n   Hint: ");
    msg.append(hint.as_str());
    msg
}

/// Formats a connection failure of `service`.
pub fn format_network_error(service: &str, error: &reqwest::Error) -> (r: String)
    ensures
        exists|t: bool, c: bool, d: bool| r@ == network_error_text(service@, t, c, d),
{
    let timeout = error.is_timeout();
    let connect = error.is_connect();
    let decode = error.is_decode();
    network_error_message(service, timeout, connect, decode)
}

} // verus!
