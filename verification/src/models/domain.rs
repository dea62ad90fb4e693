//! Domains.

use crate::json::{
    json_object, json_text, json_view, new_json_object, set_json_field, JsonFields,
    JsonResult, JsonView,
};
use crate::models::ids::{
    fresh_uuid, now, timestamp_json, timestamp_json_view, uuid_json, uuid_text, Timestamp,
};
use vstd::prelude::*;

verus! {

/// The lower-case form of a text, as `str::to_lowercase` gives it.
pub uninterp spec fn lowercase(text: Seq<char>) -> Seq<char>;

/// `str::to_lowercase`.
#[verifier::external_body]
pub(crate) fn to_lowercase(text: &str) -> (lower: String)
    ensures
        lower@ == lowercase(text@),
{
    text.to_lowercase()
}

/// A named domain.
#[derive(Clone, Debug)]
pub struct Domain {
    /// The identifier of the domain.
    pub id: uuid::Uuid,
    /// The name by which the domain is looked up, in lower case.
    pub name: String,
    /// When the domain was created.
    pub created_at: Timestamp,
    /// When the domain was last changed.
    pub updated_at: Timestamp,
}

/// The fields of a domain in JSON.
pub open spec fn domain_fields(domain: Domain) -> JsonFields {
    JsonFields::empty().insert("id"@, JsonView::Text(uuid_text(domain.id))).insert(
        "name"@,
        JsonView::Text(domain.name@),
    ).insert(
        "created_at"@,
        timestamp_json_view(domain.created_at.seconds, domain.created_at.nanoseconds),
    ).insert(
        "updated_at"@,
        timestamp_json_view(domain.updated_at.seconds, domain.updated_at.nanoseconds),
    )
}

/// A domain in JSON holds its identifier under `id`.
pub proof fn lemma_domain_json_holds_id(domain: Domain)
    ensures
        domain_fields(domain).dom().contains("id"@),
        domain_fields(domain)["id"@] == JsonView::Text(uuid_text(domain.id)),
{
    reveal_strlit("id");
    reveal_strlit("name");
    reveal_strlit("created_at");
    reveal_strlit("updated_at");
    assert("id"@.len() == 2);
    assert("name"@.len() == 4);
    assert("created_at"@.len() == 10);
    assert("updated_at"@.len() == 10);
}

impl Domain {
    /// A new domain of the given name in lower case, with the given
    /// identifier, and with `at` as the time of creation and of the last
    /// change.
    pub fn new_at(name: &str, id: uuid::Uuid, at: Timestamp) -> (domain: Domain)
        ensures
            domain.id == id,
            domain.name@ == lowercase(name@),
            domain.created_at == at,
            domain.updated_at == at,
    {
        Domain { id, name: to_lowercase(name), created_at: at, updated_at: at }
    }

    /// A new domain of the given name in lower case, with a fresh
    /// identifier and the current time as the time of creation and of the
    /// last change.
    pub fn new(name: &str) -> (domain: Domain)
        ensures
            domain.name@ == lowercase(name@),
            domain.created_at == domain.updated_at,
    {
        let at = now();
        let id = fresh_uuid();
        Domain::new_at(name, id, at)
    }

    /// The domain as a JSON object.
    pub fn to_json(&self) -> (made: JsonResult)
        ensures
            made is Ok,
            made matches Ok(value) ==> json_view(value) == JsonView::Object(domain_fields(*self)),
    {
        let mut object = new_json_object();
        match uuid_json(&self.id) {
            Ok(value) => set_json_field(&mut object, "id", value),
            Err(error) => return Err(error),
        }
        set_json_field(&mut object, "name", json_text(self.name.clone()));
        match timestamp_json(self.created_at.seconds, self.created_at.nanoseconds) {
            Ok(value) => set_json_field(&mut object, "created_at", value),
            Err(error) => return Err(error),
        }
        match timestamp_json(self.updated_at.seconds, self.updated_at.nanoseconds) {
            Ok(value) => set_json_field(&mut object, "updated_at", value),
            Err(error) => return Err(error),
        }
        Ok(json_object(object))
    }
}

} // verus!
