//! The bearer token header sent with every request.
use vstd::prelude::*;
use crate::error::CliError;
use crate::text::{push_str, string_from};

verus! {

broadcast use vstd::string::group_string_axioms;

#[verifier::external_type_specification]
#[verifier::external_body]
pub struct ExHeaderValue(http::HeaderValue);

#[verifier::external_type_specification]
#[verifier::external_body]
pub struct ExInvalidHeaderValue(http::header::InvalidHeaderValue);

/// Whether `http` accepts a character in a header value: tab, or a character
/// from space on other than DEL (every byte of a non-ASCII character is at
/// least 0x80, which it accepts).
pub open spec fn header_char_ok(c: char) -> bool {
    c == '\t' || ((c as u32) >= 32 && (c as u32) != 127)
}

pub open spec fn header_text_ok(s: Seq<char>) -> bool {
    forall|i: int| 0 <= i < s.len() ==> header_char_ok(#[trigger] s[i])
}

/// `http::HeaderValue::from_str`: accepts the text exactly when every byte is a
/// tab or lies in 32..=255 other than 127.
#[verifier::external_body]
fn header_value_from_str(text: &str) -> (r: Result<http::HeaderValue, http::header::InvalidHeaderValue>)
    ensures
        r is Ok <==> header_text_ok(text@),
{
    http::HeaderValue::from_str(text)
}

/// The `Display` text of `http::header::InvalidHeaderValue`, which its source
/// writes as a fixed message.
#[verifier::external_body]
fn invalid_header_value_text(e: &http::header::InvalidHeaderValue) -> (s: String)
    ensures
        s@ == "failed to parse header value"@,
{
    e.to_string()
}

/// The value of the authorization header for a token.
pub open spec fn bearer_text(token: Seq<char>) -> Seq<char> {
    "Bearer "@ + token
}

/// The header name and value that carry the token, as text: `authorization`
/// and `Bearer {token}`. A token that cannot stand in a header value is a
/// config error.
pub fn bearer_headers(token: &str) -> (r: Result<Vec<(String, String)>, CliError>)
    ensures
        r is Ok <==> header_text_ok(bearer_text(token@)),
        r matches Ok(h) ==> h@.len() == 1 && h@[0].0@ == "authorization"@ && h@[0].1@ == bearer_text(
            token@,
        ),
        r matches Err(e) ==> (e matches CliError::Config(m) && m@ == "invalid bearer token: "@
            + "failed to parse header value"@),
{
    let mut value = string_from("Bearer ");
    push_str(&mut value, token);
    match header_value_from_str(value.as_str()) {
        Ok(_) => {
            let mut headers = Vec::new();
            headers.push((string_from("authorization"), value));
            Ok(headers)
        },
        Err(e) => {
            let mut m = string_from("invalid bearer token: ");
            push_str(&mut m, invalid_header_value_text(&e).as_str());
            Err(CliError::Config(m))
        },
    }
}

} // verus!
