//! The lookup of a domain by name.

use crate::error::{
    database_response, entity_response, problem_response, render_entity, sql_error_kind,
    HttpError, Response, ResponseView,
};
use crate::json::JsonView;
use crate::models::domain::{domain_fields, Domain};
use crate::problems::Problem;
use crate::status::{not_found, status_view};
use crate::text::{contains_text, ends_with, occurs_at};
use vstd::prelude::*;

verus! {

/// What the database says to the lookup of a domain.
pub type DomainLookup = Result<Option<Domain>, sqlx::Error>;

/// What the handler returns for the lookup of a domain.
pub type DomainAnswer = Result<Domain, HttpError<DomainError>>;

/// The problems of the domain handlers.
#[derive(Clone, Debug)]
pub enum DomainError {
    /// No domain has the given name.
    NotFoundByName(String),
}

impl DomainError {
    /// The name that was looked up.
    pub open spec fn name(&self) -> Seq<char> {
        match self {
            DomainError::NotFoundByName(name) => name@,
        }
    }

    /// The message of the error: `Domain '<name>' is not found.`
    pub fn message(&self) -> (message: String)
        ensures
            message@ == "Domain '"@ + self.name() + "' is not found."@,
    {
        match self {
            DomainError::NotFoundByName(name) => {
                let mut message = String::from_str("Domain '");
                message.append(name.as_str());
                message.append("' is not found.");
                message
            },
        }
    }
}

/// The type URI of the problem that no domain has the name.
pub open spec fn not_found_type() -> Seq<char> {
    "https://errors.taster.com/metadata/domains/"@ + "not-found"@
}

/// The title of the problem that no domain has the name.
pub open spec fn not_found_title() -> Seq<char> {
    "Domain Not Found."@
}

/// The detail of the problem that no domain has the name.
pub open spec fn not_found_detail(name: Seq<char>) -> Seq<char> {
    "Domain '"@ + name + "' is not found."@
}

impl Problem for DomainError {
    fn ty(&self) -> (ty: String)
        ensures
            ty@ == not_found_type(),
    {
        let sub_type = match self {
            DomainError::NotFoundByName(_) => "not-found",
        };
        let mut ty = String::from_str("https://errors.taster.com/metadata/domains/");
        ty.append(sub_type);
        ty
    }

    fn title(&self) -> (title: String)
        ensures
            title@ == not_found_title(),
    {
        match self {
            DomainError::NotFoundByName(_) => String::from_str("Domain Not Found."),
        }
    }

    fn detail(&self) -> (detail: String)
        ensures
            detail@ == not_found_detail(self.name()),
    {
        self.message()
    }

    fn status(&self) -> (status: Option<http::StatusCode>)
        ensures
            status_view(status) == Some(404int),
    {
        match self {
            DomainError::NotFoundByName(_) => Some(not_found()),
        }
    }
}

/// Decides what the lookup of the domain named `domain_name` returns, given
/// what the database said: the domain that was found, a "not found"
/// problem that carries the name where there is none, or the error of the
/// database as it came.
pub fn show(domain_name: String, found: DomainLookup) -> (answer: DomainAnswer)
    ensures
        found matches Ok(Some(domain)) ==> answer matches Ok(shown) && shown == domain,
        found matches Ok(None) ==> answer matches Err(HttpError::ProblemError(problem))
            && problem == DomainError::NotFoundByName(domain_name),
        found matches Err(error) ==> answer matches Err(HttpError::SQLError(raised)) && raised
            == error,
{
    match found {
        Ok(Some(domain)) => Ok(domain),
        Ok(None) => Err(HttpError::from(DomainError::NotFoundByName(domain_name))),
        Err(error) => Err(HttpError::from(error)),
    }
}

/// The response to the lookup of a domain that does not exist.
pub open spec fn not_found_response(name: Seq<char>) -> ResponseView {
    problem_response(
        not_found_type(),
        not_found_title(),
        not_found_detail(name),
        Some(404int),
        None,
        None,
    )
}

/// The response to the lookup of a domain that does not exist has status
/// 404 and the two fixed headers of a problem response; the type in its
/// body ends in `/not-found`, and the detail holds the name that was
/// looked up.
pub proof fn lemma_missing_domain_is_not_found(name: Seq<char>)
    ensures
        not_found_response(name).status == 404,
        not_found_response(name).headers == crate::problems::default_entries(),
        not_found_response(name).body matches JsonView::Object(fields) && fields["type"@]
            == JsonView::Text(not_found_type()) && fields["title"@] == JsonView::Text(
            not_found_title(),
        ) && fields["detail"@] == JsonView::Text(not_found_detail(name)) && fields["status"@]
            == JsonView::Number(404) && !fields.dom().contains("instance"@),
        ends_with(not_found_type(), "/not-found"@),
        contains_text(not_found_detail(name), name),
{
    crate::error::lemma_names_differ();
    crate::error::lemma_problem_fields_are_exact(
        not_found_type(),
        not_found_title(),
        not_found_detail(name),
        Some(404int),
        None,
    );
    reveal_strlit("https://errors.taster.com/metadata/domains/");
    reveal_strlit("not-found");
    reveal_strlit("/not-found");
    reveal_strlit("Domain '");
    reveal_strlit("' is not found.");
    let ty = not_found_type();
    assert(ty.subrange(ty.len() - 10, ty.len() as int) =~= "/not-found"@);
    let detail = not_found_detail(name);
    assert(detail.subrange(8, 8 + name.len() as int) =~= name);
    assert(occurs_at(detail, name, 8));
}

/// The response to the lookup of the domain named `domain_name`, given
/// what the database said: 200 with the domain as JSON where it was found,
/// the "not found" problem with 404 where there is none, and the answer
/// to the database error otherwise.
pub fn respond(domain_name: String, found: DomainLookup) -> (response: Response)
    ensures
        found matches Ok(Some(domain)) ==> response@ == entity_response(
            JsonView::Object(domain_fields(domain)),
        ),
        found matches Ok(None) ==> response@ == not_found_response(domain_name@),
        found matches Err(error) ==> exists|detail: Seq<char>|
            response@ == #[trigger] database_response(sql_error_kind(error), detail),
{
    match show(domain_name, found) {
        Ok(domain) => match domain.to_json() {
            Ok(body) => render_entity(body),
            Err(_) => vstd::pervasive::unreached(),
        },
        Err(error) => error.into_response(),
    }
}

} // verus!
