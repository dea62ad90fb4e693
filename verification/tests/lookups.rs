use http::StatusCode;
use metadata_core::error::HttpError;
use metadata_core::handlers::blocks::BlockError;
use metadata_core::handlers::domains::DomainError;
use metadata_core::handlers::{blocks, domains};
use metadata_core::models::ids::Timestamp;
use metadata_core::models::{Block, Domain, Parent};
use metadata_core::problems::{default_headers, Problem};
use uuid::Uuid;

fn at() -> Timestamp {
    Timestamp { seconds: 1_431_648_000, nanoseconds: 0 }
}

fn acme() -> Domain {
    Domain {
        id: Uuid::from_u128(0x018f_0000_0000_7000_8000_0000_0000_0001),
        name: "acme".to_owned(),
        created_at: at(),
        updated_at: at(),
    }
}

fn web_api() -> Block {
    Block {
        id: Uuid::from_u128(0x018f_0000_0000_7000_8000_0000_0000_0002),
        parent: Parent::Domain(acme().id),
        name: "web-api".to_owned(),
        created_at: at(),
        updated_at: at(),
    }
}

#[test]
fn block_error_says_what_it_is() {
    let error = BlockError::NotFoundByName("web-api".to_owned());
    assert_eq!(error.ty(), "https://errors.taster.com/metadata/blocks/not-found");
    assert_eq!(error.title(), "Block Not Found.");
    assert_eq!(error.detail(), "Block 'web-api' is not found.");
    assert_eq!(error.message(), "Block 'web-api' is not found.");
    assert_eq!(error.status(), Some(StatusCode::NOT_FOUND));
    assert_eq!(error.instance(), None);
    assert!(error.headers().is_none());
}

#[test]
fn domain_error_says_what_it_is() {
    let error = DomainError::NotFoundByName("acme".to_owned());
    assert_eq!(error.ty(), "https://errors.taster.com/metadata/domains/not-found");
    assert_eq!(error.title(), "Domain Not Found.");
    assert_eq!(error.detail(), "Domain 'acme' is not found.");
    assert_eq!(error.message(), "Domain 'acme' is not found.");
    assert_eq!(error.status(), Some(StatusCode::NOT_FOUND));
    assert_eq!(error.instance(), None);
    assert!(error.headers().is_none());
}

#[test]
fn missing_domain_is_answered_with_404() {
    let answer = domains::show("acme".to_owned(), Ok(None));
    let error = answer.err().unwrap();
    assert!(matches!(
        &error,
        HttpError::ProblemError(DomainError::NotFoundByName(name)) if name == "acme"
    ));
    let response = error.into_response();
    assert_eq!(response.status, StatusCode::NOT_FOUND);
    assert_eq!(response.headers, default_headers());
    let ty = response.body["type"].as_str().unwrap();
    assert!(ty.ends_with("/not-found"));
    assert_eq!(ty, "https://errors.taster.com/metadata/domains/not-found");
    assert_eq!(response.body["title"], "Domain Not Found.");
    assert!(response.body["detail"].as_str().unwrap().contains("acme"));
    assert_eq!(response.body["status"], 404);
    assert!(response.body.get("instance").is_none());
}

#[test]
fn missing_block_is_answered_with_404() {
    let answer = blocks::show("web-api".to_owned(), Ok(None));
    let error = answer.err().unwrap();
    assert!(matches!(
        &error,
        HttpError::ProblemError(BlockError::NotFoundByName(name)) if name == "web-api"
    ));
    let response = error.into_response();
    assert_eq!(response.status, StatusCode::NOT_FOUND);
    assert_eq!(response.headers, default_headers());
    let ty = response.body["type"].as_str().unwrap();
    assert!(ty.ends_with("/not-found"));
    assert_eq!(ty, "https://errors.taster.com/metadata/blocks/not-found");
    assert_eq!(response.body["title"], "Block Not Found.");
    assert_eq!(response.body["detail"], "Block 'web-api' is not found.");
    assert_eq!(response.body["status"], 404);
}

#[test]
fn found_domain_is_returned_with_its_identifier() {
    let stored = acme();
    let shown = domains::show("acme".to_owned(), Ok(Some(stored.clone()))).ok().unwrap();
    assert_eq!(shown.id, stored.id);
    assert_eq!(shown.name, "acme");
    let json = shown.to_json().unwrap();
    let id = Uuid::parse_str(json["id"].as_str().unwrap()).unwrap();
    assert_eq!(id, stored.id);
}

#[test]
fn found_block_is_returned_with_a_tagged_parent() {
    let stored = web_api();
    let shown = blocks::show("web-api".to_owned(), Ok(Some(stored.clone()))).ok().unwrap();
    assert_eq!(shown.id, stored.id);
    assert_eq!(shown.name, "web-api");
    let json = shown.to_json().unwrap();
    let id = Uuid::parse_str(json["id"].as_str().unwrap()).unwrap();
    assert_eq!(id, stored.id);
    let parent = json["parent"].as_object().unwrap();
    assert_eq!(parent.len(), 2);
    assert_eq!(parent["type"], "domain");
    assert_eq!(parent["domain_uuid"], acme().id.to_string());
}

#[test]
fn database_error_passes_through_the_block_lookup() {
    let answer = blocks::show("web-api".to_owned(), Err(sqlx::Error::PoolTimedOut));
    let error = answer.err().unwrap();
    assert!(matches!(&error, HttpError::SQLError(sqlx::Error::PoolTimedOut)));
    assert_eq!(error.into_response().status, StatusCode::GATEWAY_TIMEOUT);
}

#[test]
fn database_error_passes_through_the_domain_lookup() {
    let answer = domains::show("acme".to_owned(), Err(sqlx::Error::RowNotFound));
    let error = answer.err().unwrap();
    assert!(matches!(&error, HttpError::SQLError(sqlx::Error::RowNotFound)));
    let response = error.into_response();
    assert_eq!(response.status, StatusCode::INTERNAL_SERVER_ERROR);
    assert!(!response.headers.contains_key("retry-after"));
}

#[test]
fn lookup_of_a_missing_domain_responds_with_404() {
    let response = domains::respond("acme".to_owned(), Ok(None));
    assert_eq!(response.status, StatusCode::NOT_FOUND);
    assert_eq!(response.headers, default_headers());
    assert!(response.body["type"].as_str().unwrap().ends_with("/not-found"));
    assert!(response.body["detail"].as_str().unwrap().contains("acme"));
    assert_eq!(response.body["detail"], "Domain 'acme' is not found.");
}

#[test]
fn lookup_of_a_missing_block_responds_with_404() {
    let response = blocks::respond("web-api".to_owned(), Ok(None));
    assert_eq!(response.status, StatusCode::NOT_FOUND);
    assert_eq!(response.headers, default_headers());
    assert!(response.body["type"].as_str().unwrap().ends_with("/not-found"));
    assert_eq!(response.body["detail"], "Block 'web-api' is not found.");
}

#[test]
fn lookup_of_a_stored_domain_responds_with_200() {
    let stored = acme();
    let response = domains::respond("acme".to_owned(), Ok(Some(stored.clone())));
    assert_eq!(response.status, StatusCode::OK);
    assert!(response.headers.is_empty());
    assert_eq!(response.body, stored.to_json().unwrap());
    let id = Uuid::parse_str(response.body["id"].as_str().unwrap()).unwrap();
    assert_eq!(id, stored.id);
    assert_eq!(response.body["name"], "acme");
}

#[test]
fn lookup_of_a_stored_block_responds_with_200_and_a_tagged_parent() {
    let stored = web_api();
    let response = blocks::respond("web-api".to_owned(), Ok(Some(stored.clone())));
    assert_eq!(response.status, StatusCode::OK);
    assert!(response.headers.is_empty());
    assert_eq!(response.body, stored.to_json().unwrap());
    let id = Uuid::parse_str(response.body["id"].as_str().unwrap()).unwrap();
    assert_eq!(id, stored.id);
    let parent = response.body["parent"].as_object().unwrap();
    assert_eq!(parent.len(), 2);
    assert_eq!(parent["type"], "domain");
    assert_eq!(parent["domain_uuid"], acme().id.to_string());
    assert!(parent.get("block_uuid").is_none());
}

#[test]
fn lookup_that_finds_the_pool_closed_responds_with_504() {
    let response = blocks::respond("web-api".to_owned(), Err(sqlx::Error::PoolClosed));
    assert_eq!(response.status, StatusCode::GATEWAY_TIMEOUT);
    assert_eq!(response.headers.get("retry-after").unwrap(), "120");
    let response = domains::respond("acme".to_owned(), Err(sqlx::Error::PoolTimedOut));
    assert_eq!(response.status, StatusCode::GATEWAY_TIMEOUT);
    assert_eq!(response.headers.get("retry-after").unwrap(), "120");
}

#[test]
fn lookup_that_fails_otherwise_responds_with_500() {
    let response = domains::respond("acme".to_owned(), Err(sqlx::Error::WorkerCrashed));
    assert_eq!(response.status, StatusCode::INTERNAL_SERVER_ERROR);
    assert!(!response.headers.contains_key("retry-after"));
    assert_eq!(response.body["type"], "https://errors.taster.com/metadata/sql/unknown-error");
}
