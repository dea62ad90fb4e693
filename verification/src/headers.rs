//! HTTP header maps as they are used for problem responses.
//!
//! The map itself is `http::HeaderMap`. Its contents are described by
//! [`header_entries`]: for each header name (lower case) the values stored
//! under it, in the order in which they were added.

use vstd::prelude::*;

verus! {

/// `http::HeaderMap`, known to the contracts by [`header_entries`] alone.
#[verifier::external_type_specification]
#[verifier::external_body]
#[verifier::reject_recursive_types(T)]
pub struct ExHeaderMap<T>(http::HeaderMap<T>);

/// `http::HeaderName`, known to the contracts by [`header_name_text`] alone.
#[verifier::external_type_specification]
#[verifier::external_body]
pub struct ExHeaderName(http::HeaderName);

/// `http::HeaderValue`, known to the contracts by [`header_value_bytes`] alone.
#[verifier::external_type_specification]
#[verifier::external_body]
pub struct ExHeaderValue(http::HeaderValue);

/// What a header map holds: each name with its values in order.
pub type HeaderEntries = Map<Seq<char>, Seq<Seq<u8>>>;

/// The contents of an `http::HeaderMap`.
pub uninterp spec fn header_entries(map: http::HeaderMap) -> HeaderEntries;

/// The text of a header name, as `HeaderName::as_str` gives it.
pub uninterp spec fn header_name_text(name: http::HeaderName) -> Seq<char>;

/// The bytes of a header value, as `HeaderValue::as_bytes` gives them.
pub uninterp spec fn header_value_bytes(value: http::HeaderValue) -> Seq<u8>;

/// A map with fewer distinct names than this always accepts one more.
///
/// `http` refuses to let the table of a map grow past 32,768 slots. It
/// doubles the table when the names fill three quarters of the slots, or
/// a fifth of them while it suspects a collision attack, so the first
/// refusal comes at 6,554 names or later. This bound stays well below.
pub const ASSURED_HEADER_NAMES: usize = 4096;

/// The bytes of a text made of ASCII characters only.
pub open spec fn ascii_bytes(text: Seq<char>) -> Seq<u8> {
    Seq::new(text.len(), |i: int| text[i] as u8)
}

/// Whether every character may stand in a header value: printable ASCII
/// or a tab.
pub open spec fn is_header_text(text: Seq<char>) -> bool {
    forall|i: int| 0 <= i < text.len() ==> is_header_char(#[trigger] text[i])
}

/// Whether a character is printable ASCII or a tab.
pub open spec fn is_header_char(c: char) -> bool {
    (32 <= c as u32 && (c as u32) < 127) || c as u32 == 9
}

/// The decimal digits of a number, as ASCII bytes.
pub open spec fn decimal_bytes(n: nat) -> Seq<u8>
    decreases n,
{
    if n < 10 {
        seq![(48 + n) as u8]
    } else {
        decimal_bytes(n / 10).push((48 + n % 10) as u8)
    }
}

/// Whether a map is certain to take one more name.
pub open spec fn has_room(entries: HeaderEntries) -> bool {
    entries.dom().finite() && entries.dom().len() < ASSURED_HEADER_NAMES
}

/// `HeaderMap::new`: a map that holds nothing.
#[verifier::external_body]
pub(crate) fn new_header_map() -> (map: http::HeaderMap)
    ensures
        header_entries(map) == HeaderEntries::empty(),
{
    http::HeaderMap::new()
}

/// `HeaderMap::try_insert`: on success the name holds the new value and
/// nothing else, and every other name is as before; on failure the map
/// holds what it held. The call fails only where the table of the map
/// cannot grow, which does not happen below [`ASSURED_HEADER_NAMES`]
/// distinct names.
#[verifier::external_body]
pub(crate) fn set_header(
    map: &mut http::HeaderMap,
    name: http::HeaderName,
    value: http::HeaderValue,
) -> (stored: bool)
    ensures
        stored ==> header_entries(*final(map)) == header_entries(*old(map)).insert(
            header_name_text(name),
            seq![header_value_bytes(value)],
        ),
        !stored ==> header_entries(*final(map)) == header_entries(*old(map)),
        has_room(header_entries(*old(map))) ==> stored,
{
    map.try_insert(name, value).is_ok()
}

/// The constant `http::header::CACHE_CONTROL`.
#[verifier::external_body]
pub(crate) fn cache_control_name() -> (name: http::HeaderName)
    ensures
        header_name_text(name) == "cache-control"@,
{
    http::header::CACHE_CONTROL
}

/// The constant `http::header::CONTENT_TYPE`.
#[verifier::external_body]
pub(crate) fn content_type_name() -> (name: http::HeaderName)
    ensures
        header_name_text(name) == "content-type"@,
{
    http::header::CONTENT_TYPE
}

/// The constant `http::header::RETRY_AFTER`.
#[verifier::external_body]
pub(crate) fn retry_after_name() -> (name: http::HeaderName)
    ensures
        header_name_text(name) == "retry-after"@,
{
    http::header::RETRY_AFTER
}

/// `HeaderValue::from_static`: the value holds the bytes of the text. The
/// outside function panics on a character that is neither printable ASCII
/// nor a tab.
#[verifier::external_body]
pub(crate) fn static_header_value(text: &'static str) -> (value: http::HeaderValue)
    requires
        is_header_text(text@),
    ensures
        header_value_bytes(value) == ascii_bytes(text@),
{
    http::HeaderValue::from_static(text)
}

/// `HeaderValue::from(u16)`: the value holds the number's decimal digits.
#[verifier::external_body]
pub(crate) fn number_header_value(number: u16) -> (value: http::HeaderValue)
    ensures
        header_value_bytes(value) == decimal_bytes(number as nat),
{
    http::HeaderValue::from(number)
}

} // verus!
