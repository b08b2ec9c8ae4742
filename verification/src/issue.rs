//! The texts of the issues that a report can hold.
//!
//! Each text has a spec function that says what it is and a function that
//! builds it.

use vstd::prelude::*;

verus! {

/// The URL breaks the HTTPS policy.
pub open spec fn https_required() -> Seq<char> {
    "HTTPS required by policy, but URL is not https"@
}

/// The response has no header `name`.
pub open spec fn missing_header(name: Seq<char>) -> Seq<char> {
    "Missing header: "@ + name
}

/// The content type `actual` begins with none of the allowed prefixes.
pub open spec fn content_type_not_allowed(actual: Seq<char>) -> Seq<char> {
    "Content-Type not allowed: "@ + actual
}

/// Header `name` holds `got` where `expected` was asked for.
pub open spec fn header_mismatch(name: Seq<char>, got: Seq<char>, expected: Seq<char>) -> Seq<
    char,
> {
    "Header "@ + name + " mismatch: got '"@ + got + "', expected '"@ + expected + "'"@
}

/// Header `name` holds `got`, in which `needle` does not stand.
pub open spec fn header_lacks(name: Seq<char>, needle: Seq<char>, got: Seq<char>) -> Seq<char> {
    "Header "@ + name + " does not contain '"@ + needle + "': got '"@ + got + "'"@
}

/// The body does not hold the required `needle`.
pub open spec fn body_missing(needle: Seq<char>) -> Seq<char> {
    "Body missing required text: '"@ + needle + "'"@
}

/// The body holds none of `needles`.
pub open spec fn body_none_of(needles: Seq<Seq<char>>) -> Seq<char> {
    "Body did not contain ANY of: "@ + debug_list(needles)
}

/// The body could not be read; `reason` says why.
pub open spec fn body_unreadable(reason: Seq<char>) -> Seq<char> {
    "Failed to read response body: "@ + reason
}

/// No response was obtained; `reason` says why.
pub open spec fn transport_error(reason: Seq<char>) -> Seq<char> {
    "Transport error: "@ + reason
}

/// The time source failed; `reason` says why.
pub open spec fn timestamp_failed(reason: Seq<char>) -> Seq<char> {
    "Timestamp fetch failed: "@ + reason
}

/// What std's `Debug` formatting writes for a list of strings: the items
/// quoted and escaped, separated by commas, between square brackets.
pub uninterp spec fn debug_list(items: Seq<Seq<char>>) -> Seq<char>;

/// Formats `items` with `{:?}`, that is with `<Vec<String> as Debug>::fmt`.
/// The contract only names the result: the same strings always give the same
/// text. Nothing is claimed of how std escapes a character.
#[verifier::external_body]
fn format_debug_list(items: &Vec<String>) -> (s: String)
    ensures
        s@ == debug_list(items.deep_view()),
{
    format!("{:?}", items)
}

/// `head` followed by `tail`.
fn join2(head: &str, tail: &str) -> (s: String)
    ensures
        s@ == head@ + tail@,
{
    let mut s = String::from_str(head);
    s.append(tail);
    s
}

/// Builds the text of [`https_required`].
pub fn make_https_required() -> (s: String)
    ensures
        s@ == https_required(),
{
    String::from_str("HTTPS required by policy, but URL is not https")
}

/// Builds the text of [`missing_header`].
pub fn make_missing_header(name: &str) -> (s: String)
    ensures
        s@ == missing_header(name@),
{
    join2("Missing header: ", name)
}

/// Builds the text of [`content_type_not_allowed`].
pub fn make_content_type_not_allowed(actual: &str) -> (s: String)
    ensures
        s@ == content_type_not_allowed(actual@),
{
    join2("Content-Type not allowed: ", actual)
}

/// Builds the text of [`header_mismatch`].
pub fn make_header_mismatch(name: &str, got: &str, expected: &str) -> (s: String)
    ensures
        s@ == header_mismatch(name@, got@, expected@),
{
    let mut s = String::from_str("Header ");
    s.append(name);
    s.append(" mismatch: got '");
    s.append(got);
    s.append("', expected '");
    s.append(expected);
    s.append("'");
    s
}

/// Builds the text of [`header_lacks`].
pub fn make_header_lacks(name: &str, needle: &str, got: &str) -> (s: String)
    ensures
        s@ == header_lacks(name@, needle@, got@),
{
    let mut s = String::from_str("Header ");
    s.append(name);
    s.append(" does not contain '");
    s.append(needle);
    s.append("': got '");
    s.append(got);
    s.append("'");
    s
}

/// Builds the text of [`body_missing`].
pub fn make_body_missing(needle: &str) -> (s: String)
    ensures
        s@ == body_missing(needle@),
{
    let mut s = String::from_str("Body missing required text: '");
    s.append(needle);
    s.append("'");
    s
}

/// Builds the text of [`body_none_of`].
pub fn make_body_none_of(needles: &Vec<String>) -> (s: String)
    ensures
        s@ == body_none_of(needles.deep_view()),
{
    let list = format_debug_list(needles);
    join2("Body did not contain ANY of: ", list.as_str())
}

/// Builds the text of [`body_unreadable`].
pub fn make_body_unreadable(reason: &str) -> (s: String)
    ensures
        s@ == body_unreadable(reason@),
{
    join2("Failed to read response body: ", reason)
}

/// Builds the text of [`transport_error`].
pub fn make_transport_error(reason: &str) -> (s: String)
    ensures
        s@ == transport_error(reason@),
{
    join2("Transport error: ", reason)
}

/// Builds the text of [`timestamp_failed`].
pub fn make_timestamp_failed(reason: &str) -> (s: String)
    ensures
        s@ == timestamp_failed(reason@),
{
    join2("Timestamp fetch failed: ", reason)
}

} // verus!
