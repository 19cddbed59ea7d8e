//! What other crates compute for the library: JSON texts, RFC 3339 texts, URLs with
//! query parameters, the text of an HTTP status, the seconds between two instants.
//!
//! Each function here makes one such call, and its contract is taken from the source of
//! the crate it calls: nothing in this module is proved. What a call returns gets a
//! name, so that the contracts of the library can say exactly what they build on.

use crate::project::opt_int;
use crate::text::opt_text;
use crate::timestamp::Timestamp;
use crate::types::Guid;
use vstd::prelude::*;

verus! {

/// The JSON text that `serde_json` writes for a string: the string between double
/// quotes, with the characters escaped that JSON wants escaped.
pub uninterp spec fn json_string_text(s: Seq<char>) -> Option<Seq<char>>;

/// The JSON text that `serde_json` writes for a UUID with the given 128 bits.
pub uninterp spec fn json_guid_text(bits: int) -> Option<Seq<char>>;

/// The JSON text that `serde_json` writes for the instant that `chrono` makes of
/// the given seconds and nanoseconds; none where `chrono` has no such instant.
pub uninterp spec fn json_timestamp_text(secs: int, nanos: int) -> Option<Seq<char>>;

/// The RFC 3339 text that `chrono` writes for the instant that it makes of the
/// given seconds and nanoseconds; none where `chrono` has no such instant.
pub uninterp spec fn rfc3339_text(secs: int, nanos: int) -> Option<Seq<char>>;

/// The whole seconds that `chrono` counts from the first instant to the second;
/// none where `chrono` has no such instant for one of them.
pub uninterp spec fn elapsed_seconds(
    from_secs: int,
    from_nanos: int,
    to_secs: int,
    to_nanos: int,
) -> Option<int>;

/// The text of the URL that the `url` crate makes of a base URL and query
/// parameters added to it; none where the base does not parse as a URL.
pub uninterp spec fn url_with_params_text(
    base: Seq<char>,
    params: Seq<(Seq<char>, Seq<char>)>,
) -> Option<Seq<char>>;

/// The text in which an HTTP status code is shown: the number and the reason
/// phrase that goes with it.
pub uninterp spec fn status_line_text(code: int) -> Option<Seq<char>>;

/// Whether the standard library counts a character as white space.
pub uninterp spec fn white_space(c: char) -> bool;

/// Query parameters as pairs of character sequences.
pub open spec fn params_text(params: Seq<(String, String)>) -> Seq<(Seq<char>, Seq<char>)> {
    Seq::new(params.len(), |i: int| (params[i].0@, params[i].1@))
}

/// Tells whether a character is white space.
///
/// Calls `char::is_whitespace` of the standard library, whose answer depends on
/// the character alone.
#[verifier::external_body]
pub(crate) fn is_white_space(c: char) -> (r: bool)
    ensures
        r == white_space(c),
{
    c.is_whitespace()
}

/// Serialises a string to JSON.
///
/// Calls `serde_json::to_string` on a `str`. The result is the function's own
/// output, which depends on the string alone, or nothing where it reports an error.
#[verifier::external_body]
pub(crate) fn json_string(s: &str) -> (r: Option<String>)
    ensures
        opt_text(r) == json_string_text(s@),
{
    serde_json::to_string(s).ok()
}

/// Serialises a UUID to JSON.
///
/// Calls `uuid::Uuid::from_u128`, which takes any 128 bits, and
/// `serde_json::to_string` on the UUID. The result is that function's output,
/// which depends on the bits alone, or nothing where it reports an error.
#[verifier::external_body]
pub(crate) fn json_guid(guid: Guid) -> (r: Option<String>)
    ensures
        opt_text(r) == json_guid_text(guid.0 as int),
{
    serde_json::to_string(&uuid::Uuid::from_u128(guid.0)).ok()
}

/// Serialises an instant to JSON.
///
/// Calls `chrono::DateTime::from_timestamp` and, where that gives an instant,
/// `serde_json::to_string` on it. The result is that function's output, which
/// depends on the seconds and nanoseconds alone, or nothing where either call
/// gives none.
#[verifier::external_body]
pub(crate) fn json_timestamp(t: Timestamp) -> (r: Option<String>)
    ensures
        opt_text(r) == json_timestamp_text(t.secs as int, t.nanos as int),
{
    match chrono::DateTime::from_timestamp(t.secs, t.nanos) {
        Some(instant) => serde_json::to_string(&instant).ok(),
        None => None,
    }
}

/// Writes an instant as RFC 3339 text.
///
/// Calls `chrono::DateTime::from_timestamp` and, where that gives an instant,
/// `to_rfc3339` on it. The result is that text, which depends on the seconds and
/// nanoseconds alone, or nothing where there is no such instant.
#[verifier::external_body]
pub(crate) fn rfc3339(t: Timestamp) -> (r: Option<String>)
    ensures
        opt_text(r) == rfc3339_text(t.secs as int, t.nanos as int),
{
    match chrono::DateTime::from_timestamp(t.secs, t.nanos) {
        Some(instant) => Some(instant.to_rfc3339()),
        None => None,
    }
}

/// Counts the whole seconds from one instant to another.
///
/// Calls `chrono::DateTime::from_timestamp` on both and, where both give an
/// instant, subtracts the first from the second and takes `num_seconds` of the
/// difference. The result depends on the four numbers alone.
#[verifier::external_body]
pub(crate) fn seconds_between(from: Timestamp, to: Timestamp) -> (r: Option<i64>)
    ensures
        opt_int(r) == elapsed_seconds(
            from.secs as int,
            from.nanos as int,
            to.secs as int,
            to.nanos as int,
        ),
{
    match (
        chrono::DateTime::from_timestamp(from.secs, from.nanos),
        chrono::DateTime::from_timestamp(to.secs, to.nanos),
    ) {
        (Some(a), Some(b)) => Some((b - a).num_seconds()),
        _ => None,
    }
}

/// Adds query parameters to a URL.
///
/// Calls `reqwest::Url::parse_with_params` and takes the URL's text. The result
/// is that text, which depends on the base and the parameters alone, or nothing
/// where the function reports that the base is no URL.
#[verifier::external_body]
pub(crate) fn url_with_params(base: &str, params: &Vec<(String, String)>) -> (r: Option<String>)
    ensures
        opt_text(r) == url_with_params_text(base@, params_text(params@)),
{
    match reqwest::Url::parse_with_params(base, params.iter()) {
        Ok(url) => Some(String::from(url)),
        Err(_) => None,
    }
}

/// Shows an HTTP status code as text.
///
/// Calls `reqwest::StatusCode::from_u16`, which accepts the codes from 100 to 999
/// and no others, and `to_string` on the status. The result is that text, which
/// depends on the code alone.
#[verifier::external_body]
pub(crate) fn status_line(code: u16) -> (r: Option<String>)
    ensures
        opt_text(r) == status_line_text(code as int),
        r is Some <==> 100 <= code <= 999,
{
    match reqwest::StatusCode::from_u16(code) {
        Ok(status) => Some(status.to_string()),
        Err(_) => None,
    }
}

} // verus!
