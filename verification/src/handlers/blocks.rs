//! The lookup of a block by name.

use crate::error::{
    database_response, entity_response, problem_response, render_entity, sql_error_kind,
    HttpError, Response, ResponseView,
};
use crate::json::JsonView;
use crate::models::block::{block_fields, Block};
use crate::problems::Problem;
use crate::status::{not_found, status_view};
use crate::text::{contains_text, ends_with, occurs_at};
use vstd::prelude::*;

verus! {

/// What the database says to the lookup of a block.
pub type BlockLookup = Result<Option<Block>, sqlx::Error>;

/// What the handler returns for the lookup of a block.
pub type BlockAnswer = Result<Block, HttpError<BlockError>>;

/// The problems of the block handlers.
#[derive(Clone, Debug)]
pub enum BlockError {
    /// No block has the given name.
    NotFoundByName(String),
}

impl BlockError {
    /// The name that was looked up.
    pub open spec fn name(&self) -> Seq<char> {
        match self {
            BlockError::NotFoundByName(name) => name@,
        }
    }

    /// The message of the error: `Block '<name>' is not found.`
    pub fn message(&self) -> (message: String)
        ensures
            message@ == "Block '"@ + self.name() + "' is not found."@,
    {
        match self {
            BlockError::NotFoundByName(name) => {
                let mut message = String::from_str("Block '");
                message.append(name.as_str());
                message.append("' is not found.");
                message
            },
        }
    }
}

/// The type URI of the problem that no block has the name.
pub open spec fn not_found_type() -> Seq<char> {
    "https://errors.taster.com/metadata/blocks/"@ + "not-found"@
}

/// The title of the problem that no block has the name.
pub open spec fn not_found_title() -> Seq<char> {
    "Block Not Found."@
}

/// The detail of the problem that no block has the name.
pub open spec fn not_found_detail(name: Seq<char>) -> Seq<char> {
    "Block '"@ + name + "' is not found."@
}

impl Problem for BlockError {
    fn ty(&self) -> (ty: String)
        ensures
            ty@ == not_found_type(),
    {
        let sub_type = match self {
            BlockError::NotFoundByName(_) => "not-found",
        };
        let mut ty = String::from_str("https://errors.taster.com/metadata/blocks/");
        ty.append(sub_type);
        ty
    }

    fn title(&self) -> (title: String)
        ensures
            title@ == not_found_title(),
    {
        match self {
            BlockError::NotFoundByName(_) => String::from_str("Block Not Found."),
        }
    }

    fn detail(&self) -> (detail: String)
        ensures
            detail@ == not_found_detail(self.name()),
    {
        self.message()
    }

    fn status(&self) -> (status: Option<http::StatusCode>)
        ensures
            status_view(status) == Some(404int),
    {
        match self {
            BlockError::NotFoundByName(_) => Some(not_found()),
        }
    }
}

/// Decides what the lookup of the block named `block_name` returns, given
/// what the database said: the block that was found, a "not found"
/// problem that carries the name where there is none, or the error of the
/// database as it came.
pub fn show(block_name: String, found: BlockLookup) -> (answer: BlockAnswer)
    ensures
        found matches Ok(Some(block)) ==> answer matches Ok(shown) && shown == block,
        found matches Ok(None) ==> answer matches Err(HttpError::ProblemError(problem))
            && problem == BlockError::NotFoundByName(block_name),
        found matches Err(error) ==> answer matches Err(HttpError::SQLError(raised)) && raised
            == error,
{
    match found {
        Ok(Some(block)) => Ok(block),
        Ok(None) => Err(HttpError::from(BlockError::NotFoundByName(block_name))),
        Err(error) => Err(HttpError::from(error)),
    }
}

/// The response to the lookup of a block that does not exist.
pub open spec fn not_found_response(name: Seq<char>) -> ResponseView {
    problem_response(
        not_found_type(),
        not_found_title(),
        not_found_detail(name),
        Some(404int),
        None,
        None,
    )
}

/// The response to the lookup of a block that does not exist has status
/// 404 and the two fixed headers of a problem response; the type in its
/// body ends in `/not-found`, and the detail holds the name that was
/// looked up.
pub proof fn lemma_missing_block_is_not_found(name: Seq<char>)
    ensures
        not_found_response(name).status == 404,
        not_found_response(name).headers == crate::problems::default_entries(),
        not_found_response(name).body matches JsonView::Object(fields) && fields["type"@]
            == JsonView::Text(not_found_type()) && fields["title"@] == JsonView::Text(
            not_found_title(),
        ) && fields["detail"@] == JsonView::Text(not_found_detail(name)) && fields["status"@]
            == JsonView::Number(404) && !fields.dom().contains("instance"@),
        ends_with(not_found_type(), "/not-found"@),
        contains_text(not_found_detail(name), name),
{
    crate::error::lemma_names_differ();
    crate::error::lemma_problem_fields_are_exact(
        not_found_type(),
        not_found_title(),
        not_found_detail(name),
        Some(404int),
        None,
    );
    reveal_strlit("https://errors.taster.com/metadata/blocks/");
    reveal_strlit("not-found");
    reveal_strlit("/not-found");
    reveal_strlit("Block '");
    reveal_strlit("' is not found.");
    let ty = not_found_type();
    assert(ty.subrange(ty.len() - 10, ty.len() as int) =~= "/not-found"@);
    let detail = not_found_detail(name);
    assert(detail.subrange(7, 7 + name.len() as int) =~= name);
    assert(occurs_at(detail, name, 7));
}

/// The response to the lookup of the block named `block_name`, given
/// what the database said: 200 with the block as JSON where it was found,
/// the "not found" problem with 404 where there is none, and the answer
/// to the database error otherwise.
pub fn respond(block_name: String, found: BlockLookup) -> (response: Response)
    ensures
        found matches Ok(Some(block)) ==> response@ == entity_response(
            JsonView::Object(block_fields(block)),
        ),
        found matches Ok(None) ==> response@ == not_found_response(block_name@),
        found matches Err(error) ==> exists|detail: Seq<char>|
            response@ == #[trigger] database_response(sql_error_kind(error), detail),
{
    match show(block_name, found) {
        Ok(block) => match block.to_json() {
            Ok(body) => render_entity(body),
            Err(_) => vstd::pervasive::unreached(),
        },
        Err(error) => error.into_response(),
    }
}

} // verus!
