//! Problem details as described by RFC 9457.
//!
//! An error value that implements [`Problem`] says which problem type it
//! stands for, gives a title and a detail, and may add a status code, an
//! instance and response headers. This module also builds the two parts of
//! a problem response that do not depend on where the problem came from:
//! the header map and the JSON body.

use crate::headers::{
    ascii_bytes, cache_control_name, content_type_name, header_entries, is_header_char,
    is_header_text, new_header_map, set_header, static_header_value, HeaderEntries,
    ASSURED_HEADER_NAMES,
};
use crate::json::{
    json_number, json_object, json_text, json_view, new_json_object, set_json_field,
    JsonFields, JsonView,
};
use crate::status::{status_as_u16, status_view};
use vstd::prelude::*;

verus! {

/// The text of an optional string.
pub open spec fn text_view(text: Option<String>) -> Option<Seq<char>> {
    match text {
        Some(s) => Some(s@),
        None => None,
    }
}

/// The contents of an optional header map.
pub open spec fn headers_view(headers: Option<http::HeaderMap>) -> Option<HeaderEntries> {
    match headers {
        Some(map) => Some(header_entries(map)),
        None => None,
    }
}

/// What a problem says of itself: its type, its title, its detail, and
/// its status, its instance and its headers where it has them.
pub type ProblemParts = (
    String,
    String,
    String,
    Option<http::StatusCode>,
    Option<String>,
    Option<http::HeaderMap>,
);

/// An error value that can be shown as a problem document.
///
/// An implementor says which problem type it stands for, and gives a
/// title and a detail. A status, an instance and headers are optional: an
/// implementor that does not write the accessor has none.
pub trait Problem {
    /// A URI reference that identifies the problem type. Consumers use it
    /// as the primary identifier of the problem.
    fn ty(&self) -> String;

    /// A short, human-readable summary of the problem type.
    fn title(&self) -> String;

    /// A human-readable explanation specific to this occurrence.
    fn detail(&self) -> String;

    /// The status code of the response; a problem without one is answered
    /// with 400.
    fn status(&self) -> (status: Option<http::StatusCode>)
        default_ensures
            status is None,
    {
        None
    }

    /// A URI reference that identifies this occurrence.
    fn instance(&self) -> (instance: Option<String>)
        default_ensures
            instance is None,
    {
        None
    }

    /// Headers to add to the response.
    fn headers(&self) -> (headers: Option<http::HeaderMap>)
        default_ensures
            headers is None,
    {
        None
    }

    /// All six values at once: each is what the accessor of its name
    /// returns.
    fn parts(&self) -> (parts: ProblemParts)
        ensures
            call_ensures(Self::ty, (self,), parts.0),
            call_ensures(Self::title, (self,), parts.1),
            call_ensures(Self::detail, (self,), parts.2),
            call_ensures(Self::status, (self,), parts.3),
            call_ensures(Self::instance, (self,), parts.4),
            call_ensures(Self::headers, (self,), parts.5),
    {
        (
            self.ty(),
            self.title(),
            self.detail(),
            self.status(),
            self.instance(),
            self.headers(),
        )
    }
}

/// Whether `parts` is what the problem says of itself.
pub open spec fn reports<P: Problem>(problem: &P, parts: ProblemParts) -> bool {
    call_ensures(P::parts, (problem,), parts)
}

/// The value of `Cache-Control` on every problem response.
pub open spec fn no_store() -> Seq<u8> {
    ascii_bytes("no-store"@)
}

/// The value of `Content-Type` on every problem response.
pub open spec fn problem_content_type() -> Seq<u8> {
    ascii_bytes("application/problem+json"@)
}

/// The given headers with the two fixed headers of a problem response put
/// in place of whatever stood under their names.
pub open spec fn with_defaults(entries: HeaderEntries) -> HeaderEntries {
    entries.insert("cache-control"@, seq![no_store()]).insert(
        "content-type"@,
        seq![problem_content_type()],
    )
}

/// The headers of a problem response that adds none of its own.
pub open spec fn default_entries() -> HeaderEntries {
    with_defaults(HeaderEntries::empty())
}

/// Whether a header map is certain to take the two fixed headers.
pub open spec fn takes_defaults(entries: HeaderEntries) -> bool {
    entries.dom().finite() && entries.dom().len() + 1 < ASSURED_HEADER_NAMES
}

proof fn lemma_fixed_values_are_header_text()
    ensures
        is_header_text("no-store"@),
        is_header_text("application/problem+json"@),
{
    reveal_strlit("no-store");
    reveal_strlit("application/problem+json");
    let a = "no-store"@;
    assert forall|i: int| 0 <= i < a.len() implies is_header_char(#[trigger] a[i]) by {
        assert(a.len() == 8);
    }
    let b = "application/problem+json"@;
    assert forall|i: int| 0 <= i < b.len() implies is_header_char(#[trigger] b[i]) by {
        assert(b.len() == 24);
    }
}

/// Puts the two fixed headers into a map. Says whether both were taken; a
/// map that did not take both is left in an unspecified state.
fn put_defaults(map: &mut http::HeaderMap) -> (done: bool)
    ensures
        done ==> header_entries(*final(map)) == with_defaults(header_entries(*old(map))),
        takes_defaults(header_entries(*old(map))) ==> done,
{
    proof {
        lemma_fixed_values_are_header_text();
    }
    let ghost before = header_entries(*map);
    let first = set_header(map, cache_control_name(), static_header_value("no-store"));
    if !first {
        return false;
    }
    proof {
        let after = header_entries(*map);
        assert(after.dom() =~= before.dom().insert("cache-control"@));
        if takes_defaults(before) {
            assert(after.dom().finite());
            assert(after.dom().len() <= before.dom().len() + 1);
        }
    }
    set_header(map, content_type_name(), static_header_value("application/problem+json"))
}

/// The headers of a problem response that adds none of its own:
/// `Cache-Control: no-store` and `Content-Type: application/problem+json`.
pub fn default_headers() -> (map: http::HeaderMap)
    ensures
        header_entries(map) == default_entries(),
{
    let mut map = new_header_map();
    proof {
        assert(header_entries(map).dom() =~= Set::<Seq<char>>::empty());
    }
    let done = put_defaults(&mut map);
    assert(done);
    map
}

/// The headers of a problem response, given the headers that the problem
/// supplied.
///
/// The two fixed headers replace whatever the problem put under their
/// names, so each stands in the result with one value. A supplied map so
/// full that it cannot take them is dropped, and the response carries the
/// two fixed headers alone.
pub fn merge_headers(supplied: Option<http::HeaderMap>) -> (map: http::HeaderMap)
    ensures
        supplied is None ==> header_entries(map) == default_entries(),
        supplied matches Some(given) ==> header_entries(map) == with_defaults(
            header_entries(given),
        ) || header_entries(map) == default_entries(),
        supplied matches Some(given) ==> (takes_defaults(header_entries(given))
            ==> header_entries(map) == with_defaults(header_entries(given))),
{
    match supplied {
        Some(given) => {
            let mut map = given;
            if put_defaults(&mut map) {
                map
            } else {
                default_headers()
            }
        },
        None => default_headers(),
    }
}

/// The fields of a problem document: `type`, `title` and `detail`, then
/// `status` and `instance` where the problem has them.
pub open spec fn problem_fields(
    ty: Seq<char>,
    title: Seq<char>,
    detail: Seq<char>,
    status: Option<int>,
    instance: Option<Seq<char>>,
) -> JsonFields {
    let required = JsonFields::empty().insert("type"@, JsonView::Text(ty)).insert(
        "title"@,
        JsonView::Text(title),
    ).insert("detail"@, JsonView::Text(detail));
    let with_status = match status {
        Some(number) => required.insert("status"@, JsonView::Number(number)),
        None => required,
    };
    match instance {
        Some(uri) => with_status.insert("instance"@, JsonView::Text(uri)),
        None => with_status,
    }
}

/// The JSON body of a problem document.
pub fn problem_body(
    ty: String,
    title: String,
    detail: String,
    status: Option<http::StatusCode>,
    instance: Option<String>,
) -> (body: serde_json::Value)
    ensures
        json_view(body) == JsonView::Object(
            problem_fields(ty@, title@, detail@, status_view(status), text_view(instance)),
        ),
{
    let mut object = new_json_object();
    set_json_field(&mut object, "type", json_text(ty));
    set_json_field(&mut object, "title", json_text(title));
    set_json_field(&mut object, "detail", json_text(detail));
    if let Some(code) = status {
        set_json_field(&mut object, "status", json_number(status_as_u16(&code)));
    }
    if let Some(uri) = instance {
        set_json_field(&mut object, "instance", json_text(uri));
    }
    json_object(object)
}

} // verus!
