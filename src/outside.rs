//! The calls into outside crates that the gateway's logic makes, each behind a
//! contract. Results that take pages to state are given names.

use vstd::prelude::*;

verus! {

/// A character that RFC 9110 allows in a token, and so in a method name.
pub open spec fn is_token_char(c: char) -> bool {
    ||| ('a' <= c && c <= 'z')
    ||| ('A' <= c && c <= 'Z')
    ||| ('0' <= c && c <= '9')
    ||| c == '!' || c == '#' || c == '$' || c == '%' || c == '&' || c == '\''
    ||| c == '*' || c == '+' || c == '-' || c == '.' || c == '^' || c == '_'
    ||| c == '`' || c == '|' || c == '~'
}

/// A non-empty run of token characters.
pub open spec fn is_method_token(s: Seq<char>) -> bool {
    s.len() > 0 && forall|i: int| 0 <= i < s.len() ==> is_token_char(#[trigger] s[i])
}

/// Relies on `axum::http::Method::from_str`: it accepts exactly the non-empty
/// strings of token characters, keeps the text as `as_str` gives it back, and
/// reports every failure as "invalid HTTP method".
#[verifier::external_body]
pub(crate) fn parse_method(s: &str) -> (r: Result<String, String>)
    ensures
        r is Ok <==> is_method_token(s@),
        r matches Ok(t) ==> t@ == s@,
        r matches Err(e) ==> e@ == "invalid HTTP method"@,
{
    match s.parse::<axum::http::Method>() {
        Ok(m) => Ok(m.as_str().to_string()),
        Err(e) => Err(e.to_string()),
    }
}

/// What the URI parser finds in a text: its path and optional query, or the
/// text of its error.
pub uninterp spec fn parsed_uri(s: Seq<char>) -> Result<(Seq<char>, Option<Seq<char>>), Seq<char>>;

pub open spec fn uri_result_view(r: Result<(String, Option<String>), String>) -> Result<
    (Seq<char>, Option<Seq<char>>),
    Seq<char>,
> {
    match r {
        Ok((p, q)) => Ok((p@, q.deep_view())),
        Err(e) => Err(e@),
    }
}

/// Relies on `axum::http::Uri::from_str`, read through `Uri::path` and
/// `Uri::query`: the parts found, or the error's text, depend on the text alone.
#[verifier::external_body]
pub(crate) fn split_uri(s: &str) -> (r: Result<(String, Option<String>), String>)
    ensures
        uri_result_view(r) == parsed_uri(s@),
{
    match s.parse::<axum::http::Uri>() {
        Ok(u) => Ok((u.path().to_string(), u.query().map(|q| q.to_string()))),
        Err(e) => Err(e.to_string()),
    }
}

/// The status line text of a status code: the number and its reason phrase.
pub uninterp spec fn status_text(code: u16) -> Seq<char>;

/// Relies on `axum::http::StatusCode::from_u16`, which accepts 100 to 999, and on
/// the status code's `Display`, which depends on the code alone.
#[verifier::external_body]
pub(crate) fn status_line(code: u16) -> (r: String)
    requires
        100 <= code <= 999,
    ensures
        r@ == status_text(code),
{
    match axum::http::StatusCode::from_u16(code) {
        Ok(s) => s.to_string(),
        Err(e) => e.to_string(),
    }
}

/// The key and value pairs that a form-urlencoded text decodes to, in order.
pub uninterp spec fn form_pairs(q: Seq<char>) -> Option<Seq<(Seq<char>, Seq<char>)>>;

/// Relies on `serde_urlencoded::from_str` into a list of string pairs: the pairs
/// depend on the text alone.
#[verifier::external_body]
pub(crate) fn decode_form(q: &str) -> (r: Option<Vec<(String, String)>>)
    ensures
        r.deep_view() == form_pairs(q@),
{
    serde_urlencoded::from_str::<Vec<(String, String)>>(q).ok()
}

/// The text that a percent-encoded text decodes to, when that is UTF-8.
pub uninterp spec fn percent_decoded(s: Seq<char>) -> Option<Seq<char>>;

/// Relies on `percent_encoding::percent_decode_str` and `decode_utf8`: the result
/// depends on the text alone.
#[verifier::external_body]
pub(crate) fn percent_decode(s: &str) -> (r: Option<String>)
    ensures
        r.deep_view() == percent_decoded(s@),
{
    match percent_encoding::percent_decode_str(s).decode_utf8() {
        Ok(t) => Some(t.into_owned()),
        Err(_) => None,
    }
}

/// The JSON string literal for a text, quotes and escapes included.
pub uninterp spec fn json_quoted(s: Seq<char>) -> Seq<char>;

/// Relies on `serde_json::to_string` on a `str`: it writes into memory, so it
/// does not fail, and the literal depends on the text alone.
#[verifier::external_body]
pub(crate) fn quote_json(s: &str) -> (r: Result<String, String>)
    ensures
        r is Ok,
        r matches Ok(t) ==> t@ == json_quoted(s@),
{
    match serde_json::to_string(s) {
        Ok(t) => Ok(t),
        Err(e) => Err(e.to_string()),
    }
}

/// The message with which the JSON parser rejects a text, or `None` when the
/// text is one JSON value.
pub uninterp spec fn json_syntax_error(s: Seq<char>) -> Option<Seq<char>>;

/// Relies on `serde_json::from_str` into a `serde_json::Value`: whether it
/// accepts a text, and the message when it does not, depend on the text alone.
#[verifier::external_body]
pub(crate) fn check_json(s: &str) -> (r: Result<(), String>)
    ensures
        r is Ok <==> json_syntax_error(s@) is None,
        r matches Err(e) ==> json_syntax_error(s@) == Some(e@),
{
    match serde_json::from_str::<serde_json::Value>(s) {
        Ok(_) => Ok(()),
        Err(e) => Err(e.to_string()),
    }
}

pub open spec fn is_digit(c: char) -> bool {
    '0' <= c && c <= '9'
}

pub open spec fn digit_value(c: char) -> int {
    c as int - '0' as int
}

/// The number that a string of decimal digits spells.
pub open spec fn digits_value(s: Seq<char>) -> int
    decreases s.len(),
{
    if s.len() == 0 {
        0
    } else {
        digits_value(s.drop_last()) * 10 + digit_value(s.last())
    }
}

/// The `u32` that a text spells: an optional `+`, then one or more decimal
/// digits, of a value that fits.
pub open spec fn parsed_u32(s: Seq<char>) -> Option<u32> {
    let d = if s.len() > 0 && s[0] == '+' {
        s.drop_first()
    } else {
        s
    };
    if d.len() > 0 && (forall|i: int| 0 <= i < d.len() ==> is_digit(#[trigger] d[i]))
        && digits_value(d) <= u32::MAX {
        Some(digits_value(d) as u32)
    } else {
        None
    }
}

/// Relies on `u32::from_str`, which takes an optional `+` and then decimal
/// digits, and fails on anything else or on overflow.
#[verifier::external_body]
pub(crate) fn parse_u32(s: &str) -> (r: Option<u32>)
    ensures
        r == parsed_u32(s@),
{
    s.parse::<u32>().ok()
}

pub open spec fn digit_char(d: int) -> char {
    if d == 0 {
        '0'
    } else if d == 1 {
        '1'
    } else if d == 2 {
        '2'
    } else if d == 3 {
        '3'
    } else if d == 4 {
        '4'
    } else if d == 5 {
        '5'
    } else if d == 6 {
        '6'
    } else if d == 7 {
        '7'
    } else if d == 8 {
        '8'
    } else {
        '9'
    }
}

/// The decimal digits of a number, without leading zeros.
pub open spec fn decimal_text(n: nat) -> Seq<char>
    decreases n,
{
    if n < 10 {
        seq![digit_char(n as int)]
    } else {
        decimal_text(n / 10).push(digit_char((n % 10) as int))
    }
}

/// Relies on `u32::to_string`, which writes the number in decimal.
#[verifier::external_body]
pub(crate) fn decimal(n: u32) -> (r: String)
    ensures
        r@ == decimal_text(n as nat),
{
    n.to_string()
}

} // verus!
