//! Identifiers and timestamps of the entities, and how they are written
//! into JSON.
//!
//! An identifier is a `uuid::Uuid`. A [`Timestamp`] is a point in time in
//! UTC, held as the seconds and nanoseconds since the Unix epoch; `chrono`
//! writes it into JSON.

use crate::json::{json_view, JsonResult, JsonView};
use vstd::prelude::*;

verus! {

/// `uuid::Uuid`, known to the contracts by [`uuid_text`] alone.
#[verifier::external_type_specification]
#[verifier::external_body]
pub struct ExUuid(uuid::Uuid);

/// `Uuid::clone`: identifiers are plain data, and the copy is the same
/// identifier.
pub assume_specification[ <uuid::Uuid as Clone>::clone ](id: &uuid::Uuid) -> (copy: uuid::Uuid)
    ensures
        copy == *id,
;

/// A point in time in UTC.
#[derive(Clone, Copy, Debug, PartialEq, Eq, Structural)]
pub struct Timestamp {
    /// Whole seconds since 1970-01-01T00:00:00Z.
    pub seconds: i64,
    /// Nanoseconds since the last whole second.
    pub nanoseconds: u32,
}

/// The text of an identifier in JSON: 32 lower-case hexadecimal digits in
/// five groups, with hyphens between them.
pub uninterp spec fn uuid_text(id: uuid::Uuid) -> Seq<char>;

/// A timestamp in JSON: a string in the format of RFC 3339, or `null`
/// where `chrono` has no date for the seconds and nanoseconds.
pub uninterp spec fn timestamp_json_view(seconds: i64, nanoseconds: u32) -> JsonView;

/// `serde_json::to_value` on a `Uuid`: the identifier's text as a JSON
/// string. The serializer that builds a `Value` takes every string, so
/// the call succeeds.
#[verifier::external_body]
pub(crate) fn uuid_json(id: &uuid::Uuid) -> (made: JsonResult)
    ensures
        made is Ok,
        made matches Ok(value) ==> json_view(value) == JsonView::Text(uuid_text(*id)),
{
    serde_json::to_value(id)
}

/// `serde_json::to_value` on what `DateTime::from_timestamp` makes of the
/// seconds and nanoseconds. The serializer that builds a `Value` takes
/// every string and `null`, so the call succeeds.
#[verifier::external_body]
pub(crate) fn timestamp_json(seconds: i64, nanoseconds: u32) -> (made: JsonResult)
    ensures
        made is Ok,
        made matches Ok(value) ==> json_view(value) == timestamp_json_view(seconds, nanoseconds),
{
    serde_json::to_value(chrono::DateTime::from_timestamp(seconds, nanoseconds))
}

/// `Uuid::now_v7`: a fresh identifier made from the clock and from random
/// bits. Nothing is stated of it.
#[verifier::external_body]
pub(crate) fn fresh_uuid() -> uuid::Uuid {
    uuid::Uuid::now_v7()
}

/// `Utc::now`: the current time, as seconds and nanoseconds. Nothing is
/// stated of it. The outside function gives up on a clock that stands
/// before 1970.
#[verifier::external_body]
pub(crate) fn now() -> Timestamp {
    let at = chrono::Utc::now();
    Timestamp { seconds: at.timestamp(), nanoseconds: at.timestamp_subsec_nanos() }
}

} // verus!
