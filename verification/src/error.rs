//! The error envelope of the service and its rendering.
//!
//! A handler fails either with a problem of its own or with an error of
//! the database. Both are rendered into a [`Response`]: a status code, a
//! header map and a JSON body in the problem details format.

use crate::headers::{
    decimal_bytes, header_entries, new_header_map, number_header_value, retry_after_name,
    set_header, HeaderEntries,
};
use crate::json::{json_view, JsonView};
use crate::problems::{
    default_entries, default_headers, headers_view, merge_headers, problem_body,
    problem_fields, reports, takes_defaults, text_view, with_defaults, Problem, ProblemParts,
};
use crate::status::{
    bad_request, gateway_timeout, internal_server_error, ok, status_number, status_view,
};
use vstd::prelude::*;

verus! {

/// `sqlx::Error`, known to the contracts by [`sql_error_kind`] alone.
#[verifier::external_type_specification]
#[verifier::external_body]
pub struct ExSqlError(sqlx::Error);

/// How long a client should wait before it asks again after the pool
/// could not hand out a connection, in seconds.
pub const RETRY_AFTER_SECONDS: u16 = 120;

/// What a database error is, as far as the answer to it depends on it.
#[derive(Clone, Copy, Debug, PartialEq, Eq)]
pub enum DatabaseErrorKind {
    /// The pool was closed while a handler waited for a connection.
    PoolClosed,
    /// No connection became available in time.
    PoolTimedOut,
    /// Any other error of the database layer.
    Other,
}

/// Which of the kinds an error of `sqlx` falls under.
pub uninterp spec fn sql_error_kind(error: sqlx::Error) -> DatabaseErrorKind;

/// Tells the variants `PoolClosed` and `PoolTimedOut` of `sqlx::Error`
/// from all others.
#[verifier::external_body]
pub(crate) fn classify(error: &sqlx::Error) -> (kind: DatabaseErrorKind)
    ensures
        kind == sql_error_kind(*error),
{
    match error {
        sqlx::Error::PoolClosed => DatabaseErrorKind::PoolClosed,
        sqlx::Error::PoolTimedOut => DatabaseErrorKind::PoolTimedOut,
        _ => DatabaseErrorKind::Other,
    }
}

/// The message of an `sqlx::Error`, as its `Display` writes it. Nothing
/// is stated of the text: it may quote the operating system.
#[verifier::external_body]
pub(crate) fn describe(error: &sqlx::Error) -> String {
    error.to_string()
}

/// A response that is ready to be sent.
#[derive(Debug)]
pub struct Response {
    /// The status code.
    pub status: http::StatusCode,
    /// The response headers.
    pub headers: http::HeaderMap,
    /// The JSON body.
    pub body: serde_json::Value,
}

/// A response as mathematical values.
pub struct ResponseView {
    /// The number of the status code.
    pub status: int,
    /// The headers by name.
    pub headers: HeaderEntries,
    /// The body.
    pub body: JsonView,
}

impl View for Response {
    type V = ResponseView;

    open spec fn view(&self) -> ResponseView {
        ResponseView {
            status: status_number(self.status),
            headers: header_entries(self.headers),
            body: json_view(self.body),
        }
    }
}

/// The status of a problem response: the problem's own, else 400.
pub open spec fn problem_status(status: Option<int>) -> int {
    match status {
        Some(number) => number,
        None => 400,
    }
}

/// The response for a problem that supplied headers which could be merged.
pub open spec fn problem_response(
    ty: Seq<char>,
    title: Seq<char>,
    detail: Seq<char>,
    status: Option<int>,
    instance: Option<Seq<char>>,
    headers: Option<HeaderEntries>,
) -> ResponseView {
    ResponseView {
        status: problem_status(status),
        headers: match headers {
            Some(given) => with_defaults(given),
            None => default_entries(),
        },
        body: JsonView::Object(problem_fields(ty, title, detail, status, instance)),
    }
}

/// Whether the headers that a problem supplies are certain to be merged.
pub open spec fn headers_fit(headers: Option<HeaderEntries>) -> bool {
    match headers {
        Some(given) => takes_defaults(given),
        None => true,
    }
}

/// Whether a response answers the problem with the given parts: the status
/// and the body are those of the problem, and the headers are the
/// problem's own with the fixed headers in place, or the fixed headers
/// alone where the problem's header map was too full to take them.
pub open spec fn answers_problem(
    response: ResponseView,
    ty: Seq<char>,
    title: Seq<char>,
    detail: Seq<char>,
    status: Option<int>,
    instance: Option<Seq<char>>,
    headers: Option<HeaderEntries>,
) -> bool {
    let exact = problem_response(ty, title, detail, status, instance, headers);
    &&& response.status == exact.status
    &&& response.body == exact.body
    &&& (response.headers == exact.headers || response.headers == default_entries())
    &&& (headers_fit(headers) ==> response.headers == exact.headers)
}

/// The type URI of the answer to a database error.
pub open spec fn database_type(kind: DatabaseErrorKind) -> Seq<char> {
    match kind {
        DatabaseErrorKind::Other => "https://errors.taster.com/metadata/sql/unknown-error"@,
        _ => "https://errors.taster.com/metadata/sql/connection-closed"@,
    }
}

/// The title of the answer to a database error.
pub open spec fn database_title(kind: DatabaseErrorKind) -> Seq<char> {
    match kind {
        DatabaseErrorKind::Other => "Unknown database error"@,
        _ => "Database Connection Closed."@,
    }
}

/// The response to a database error of the given kind whose message is
/// `detail`: 504 with `Retry-After` where the pool could not hand out a
/// connection, 500 without it for anything else.
pub open spec fn database_response(kind: DatabaseErrorKind, detail: Seq<char>) -> ResponseView {
    ResponseView {
        status: match kind {
            DatabaseErrorKind::Other => 500,
            _ => 504,
        },
        headers: match kind {
            DatabaseErrorKind::Other => default_entries(),
            _ => default_entries().insert(
                "retry-after"@,
                seq![decimal_bytes(RETRY_AFTER_SECONDS as nat)],
            ),
        },
        body: JsonView::Object(
            problem_fields(database_type(kind), database_title(kind), detail, None, None),
        ),
    }
}

/// The response that shows an entity: 200, no headers beyond those that
/// the transport adds for a JSON body, and the entity as the body.
pub open spec fn entity_response(body: JsonView) -> ResponseView {
    ResponseView { status: 200, headers: HeaderEntries::empty(), body }
}

/// Renders an entity that was found.
pub fn render_entity(body: serde_json::Value) -> (response: Response)
    ensures
        response@ == entity_response(json_view(body)),
{
    Response { status: ok(), headers: new_header_map(), body }
}

/// Whether a response answers a problem that says `parts` of itself.
pub open spec fn answers_parts(response: ResponseView, parts: ProblemParts) -> bool {
    answers_problem(
        response,
        parts.0@,
        parts.1@,
        parts.2@,
        status_view(parts.3),
        text_view(parts.4),
        headers_view(parts.5),
    )
}

/// Renders the parts of a problem.
pub fn render_problem(parts: ProblemParts) -> (response: Response)
    ensures
        answers_parts(response@, parts),
{
    let (ty, title, detail, status, instance, headers) = parts;
    let merged = merge_headers(headers);
    let code = match status {
        Some(code) => code,
        None => bad_request(),
    };
    let body = problem_body(ty, title, detail, status, instance);
    Response { status: code, headers: merged, body }
}

/// Renders a database error of the given kind whose message is `detail`.
pub fn render_database_error(kind: DatabaseErrorKind, detail: String) -> (response: Response)
    ensures
        response@ == database_response(kind, detail@),
{
    let mut headers = default_headers();
    match kind {
        DatabaseErrorKind::Other => {
            let body = problem_body(
                "https://errors.taster.com/metadata/sql/unknown-error".to_owned(),
                "Unknown database error".to_owned(),
                detail,
                None,
                None,
            );
            Response { status: internal_server_error(), headers, body }
        },
        _ => {
            proof {
                lemma_default_entries_have_room();
            }
            let stored = set_header(
                &mut headers,
                retry_after_name(),
                number_header_value(RETRY_AFTER_SECONDS),
            );
            assert(stored);
            let body = problem_body(
                "https://errors.taster.com/metadata/sql/connection-closed".to_owned(),
                "Database Connection Closed.".to_owned(),
                detail,
                None,
                None,
            );
            Response { status: gateway_timeout(), headers, body }
        },
    }
}

proof fn lemma_default_entries_have_room()
    ensures
        crate::headers::has_room(default_entries()),
{
    let empty = HeaderEntries::empty();
    let one = empty.insert("cache-control"@, seq![crate::problems::no_store()]);
    assert(one.dom() =~= Set::<Seq<char>>::empty().insert("cache-control"@));
    assert(default_entries().dom() =~= one.dom().insert("content-type"@));
}

/// The keys of a problem document are five different texts, and so are
/// the names of the three headers of a problem response.
pub proof fn lemma_names_differ()
    ensures
        "type"@ != "title"@,
        "type"@ != "detail"@,
        "type"@ != "status"@,
        "type"@ != "instance"@,
        "title"@ != "detail"@,
        "title"@ != "status"@,
        "title"@ != "instance"@,
        "detail"@ != "status"@,
        "detail"@ != "instance"@,
        "status"@ != "instance"@,
        "cache-control"@ != "content-type"@,
        "cache-control"@ != "retry-after"@,
        "content-type"@ != "retry-after"@,
{
    reveal_strlit("type");
    reveal_strlit("title");
    reveal_strlit("detail");
    reveal_strlit("status");
    reveal_strlit("instance");
    reveal_strlit("cache-control");
    reveal_strlit("content-type");
    reveal_strlit("retry-after");
    assert("type"@.len() == 4);
    assert("title"@.len() == 5);
    assert("detail"@.len() == 6);
    assert("status"@.len() == 6);
    assert("instance"@.len() == 8);
    assert("cache-control"@.len() == 13);
    assert("content-type"@.len() == 12);
    assert("retry-after"@.len() == 11);
    assert("detail"@[0] != "status"@[0]);
}

/// Whatever a problem says of itself, the response to it holds
/// `Cache-Control: no-store` and `Content-Type: application/problem+json`,
/// each exactly once, and its body holds the type, the title and the
/// detail of the problem.
pub proof fn lemma_problem_response_has_fixed_parts(
    response: ResponseView,
    ty: Seq<char>,
    title: Seq<char>,
    detail: Seq<char>,
    status: Option<int>,
    instance: Option<Seq<char>>,
    headers: Option<HeaderEntries>,
)
    requires
        answers_problem(response, ty, title, detail, status, instance, headers),
    ensures
        response.headers.dom().contains("cache-control"@),
        response.headers["cache-control"@] == seq![crate::problems::no_store()],
        response.headers.dom().contains("content-type"@),
        response.headers["content-type"@] == seq![crate::problems::problem_content_type()],
        response.body matches JsonView::Object(fields) && fields.dom().contains("type"@)
            && fields["type"@] == JsonView::Text(ty) && fields.dom().contains("title"@)
            && fields["title"@] == JsonView::Text(title) && fields.dom().contains("detail"@)
            && fields["detail"@] == JsonView::Text(detail),
{
    lemma_names_differ();
}

/// The body of a problem document holds `type`, `title` and `detail`,
/// `status` if and only if the problem has a status, `instance` if and
/// only if it has an instance, and no other key.
pub proof fn lemma_problem_fields_are_exact(
    ty: Seq<char>,
    title: Seq<char>,
    detail: Seq<char>,
    status: Option<int>,
    instance: Option<Seq<char>>,
)
    ensures
        forall|key: Seq<char>| #[trigger]
            problem_fields(ty, title, detail, status, instance).dom().contains(key) <==> (key
                == "type"@ || key == "title"@ || key == "detail"@ || (status is Some && key
                == "status"@) || (instance is Some && key == "instance"@)),
        problem_fields(ty, title, detail, status, instance)["type"@] == JsonView::Text(ty),
        problem_fields(ty, title, detail, status, instance)["title"@] == JsonView::Text(title),
        problem_fields(ty, title, detail, status, instance)["detail"@] == JsonView::Text(detail),
        status matches Some(number) ==> problem_fields(ty, title, detail, status, instance)[
            "status"@
        ] == JsonView::Number(number),
        instance matches Some(uri) ==> problem_fields(ty, title, detail, status, instance)[
            "instance"@
        ] == JsonView::Text(uri),
{
    lemma_names_differ();
}

/// A database error is answered with 504 and a `Retry-After` header where
/// the pool was closed or timed out, and with 500 and no `Retry-After`
/// header otherwise. Both answers hold the two fixed headers.
pub proof fn lemma_database_response_by_kind(kind: DatabaseErrorKind, detail: Seq<char>)
    ensures
        kind != DatabaseErrorKind::Other ==> database_response(kind, detail).status == 504
            && database_response(kind, detail).headers.dom().contains("retry-after"@),
        kind == DatabaseErrorKind::Other ==> database_response(kind, detail).status == 500
            && !database_response(kind, detail).headers.dom().contains("retry-after"@),
        database_response(kind, detail).headers["cache-control"@] == seq![
            crate::problems::no_store(),
        ],
        database_response(kind, detail).headers["content-type"@] == seq![
            crate::problems::problem_content_type(),
        ],
{
    lemma_names_differ();
}

/// An error that a handler of the service can fail with.
#[derive(Debug)]
pub enum HttpError<P: Problem> {
    /// An error of the handler's own, described by its [`Problem`] impl.
    ProblemError(P),
    /// An error of the database layer.
    SQLError(sqlx::Error),
}

impl<P: Problem> From<sqlx::Error> for HttpError<P> {
    fn from(value: sqlx::Error) -> (error: Self) {
        HttpError::SQLError(value)
    }
}

impl<P: Problem> vstd::std_specs::convert::FromSpecImpl<sqlx::Error> for HttpError<P> {
    open spec fn obeys_from_spec() -> bool {
        true
    }

    open spec fn from_spec(value: sqlx::Error) -> Self {
        HttpError::SQLError(value)
    }
}

impl<P: Problem> From<P> for HttpError<P> {
    fn from(value: P) -> (error: Self) {
        HttpError::ProblemError(value)
    }
}

impl<P: Problem> vstd::std_specs::convert::FromSpecImpl<P> for HttpError<P> {
    open spec fn obeys_from_spec() -> bool {
        true
    }

    open spec fn from_spec(value: P) -> Self {
        HttpError::ProblemError(value)
    }
}

impl<P: Problem> HttpError<P> {
    /// Renders the error as a problem response.
    ///
    /// A problem is answered with its own status (400 if it has none), its
    /// own headers under the two fixed ones, and a body of its type, title
    /// and detail with the status and the instance where it has them. A
    /// database error is answered by its kind, with its message as detail.
    pub fn into_response(self) -> (response: Response)
        ensures
            self matches HttpError::ProblemError(problem) ==> exists|parts: ProblemParts| #[trigger]
                reports(&problem, parts) && answers_parts(response@, parts),
            self matches HttpError::SQLError(error) ==> exists|detail: Seq<char>|
                response@ == #[trigger] database_response(sql_error_kind(error), detail),
    {
        match self {
            HttpError::ProblemError(problem) => {
                let parts = problem.parts();
                assert(reports(&problem, parts));
                render_problem(parts)
            },
            HttpError::SQLError(error) => {
                let kind = classify(&error);
                let detail = describe(&error);
                let response = render_database_error(kind, detail);
                assert(response@ == database_response(sql_error_kind(error), detail@));
                response
            },
        }
    }
}

} // verus!
