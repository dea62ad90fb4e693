use metadata_core::models::ids::Timestamp;
use metadata_core::models::{Block, BlockBuilder, Domain, Parent};
use uuid::Uuid;

fn first() -> Uuid {
    Uuid::from_u128(0x0123_4567_89ab_7def_8123_4567_89ab_cdef)
}

fn second() -> Uuid {
    Uuid::from_u128(0xfedc_ba98_7654_7321_8fed_cba9_8765_4321)
}

fn keys(value: &serde_json::Value) -> Vec<String> {
    value.as_object().unwrap().keys().cloned().collect()
}

#[test]
fn parent_block_is_tagged_as_block() {
    let json = Parent::Block(first()).to_json().unwrap();
    assert_eq!(keys(&json), vec!["block_uuid", "type"]);
    assert_eq!(json["type"], "block");
    assert_eq!(json["block_uuid"], "01234567-89ab-7def-8123-456789abcdef");
    assert_eq!(
        serde_json::to_string(&json).unwrap(),
        "{\"block_uuid\":\"01234567-89ab-7def-8123-456789abcdef\",\"type\":\"block\"}"
    );
}

#[test]
fn parent_domain_is_tagged_as_domain() {
    let json = Parent::Domain(second()).to_json().unwrap();
    assert_eq!(keys(&json), vec!["domain_uuid", "type"]);
    assert_eq!(json["type"], "domain");
    assert_eq!(json["domain_uuid"], "fedcba98-7654-7321-8fed-cba987654321");
}

#[test]
fn parent_comes_from_the_column_that_is_set() {
    assert!(matches!(Parent::from_columns(Some(first()), None), Parent::Domain(id) if id == first()));
    assert!(matches!(Parent::from_columns(None, Some(second())), Parent::Block(id) if id == second()));
}

#[test]
fn block_comes_from_its_columns() {
    let created = Timestamp { seconds: 1_431_648_000, nanoseconds: 0 };
    let updated = Timestamp { seconds: 1_431_648_060, nanoseconds: 5 };
    let block =
        Block::from_columns(first(), "web-api".to_owned(), created, updated, None, Some(second()));
    assert_eq!(block.id, first());
    assert_eq!(block.name, "web-api");
    assert_eq!(block.created_at, created);
    assert_eq!(block.updated_at, updated);
    assert!(matches!(block.parent, Parent::Block(id) if id == second()));
    let block =
        Block::from_columns(first(), "web-api".to_owned(), created, updated, Some(second()), None);
    assert!(matches!(block.parent, Parent::Domain(id) if id == second()));
}

#[test]
fn block_json_holds_all_fields() {
    let block = Block {
        id: first(),
        parent: Parent::Block(second()),
        name: "web-api".to_owned(),
        created_at: Timestamp { seconds: 1_431_648_000, nanoseconds: 0 },
        updated_at: Timestamp { seconds: 1_431_648_001, nanoseconds: 500_000_000 },
    };
    let json = block.to_json().unwrap();
    assert_eq!(keys(&json), vec!["created_at", "id", "name", "parent", "updated_at"]);
    assert_eq!(json["id"], "01234567-89ab-7def-8123-456789abcdef");
    assert_eq!(json["name"], "web-api");
    assert_eq!(json["created_at"], "2015-05-15T00:00:00Z");
    assert_eq!(json["updated_at"], "2015-05-15T00:00:01.500Z");
    assert_eq!(keys(&json["parent"]), vec!["block_uuid", "type"]);
    assert_eq!(json["parent"]["type"], "block");
    assert_eq!(json["parent"]["block_uuid"], "fedcba98-7654-7321-8fed-cba987654321");
    assert_eq!(Uuid::parse_str(json["id"].as_str().unwrap()).unwrap(), first());
}

#[test]
fn domain_json_holds_all_fields() {
    let domain = Domain {
        id: second(),
        name: "acme".to_owned(),
        created_at: Timestamp { seconds: 0, nanoseconds: 0 },
        updated_at: Timestamp { seconds: -1, nanoseconds: 0 },
    };
    let json = domain.to_json().unwrap();
    assert_eq!(keys(&json), vec!["created_at", "id", "name", "updated_at"]);
    assert_eq!(json["id"], "fedcba98-7654-7321-8fed-cba987654321");
    assert_eq!(json["name"], "acme");
    assert_eq!(json["created_at"], "1970-01-01T00:00:00Z");
    assert_eq!(json["updated_at"], "1969-12-31T23:59:59Z");
    assert_eq!(Uuid::parse_str(json["id"].as_str().unwrap()).unwrap(), second());
}

#[test]
fn timestamp_without_a_date_is_null() {
    let domain = Domain {
        id: second(),
        name: "acme".to_owned(),
        created_at: Timestamp { seconds: i64::MAX, nanoseconds: 0 },
        updated_at: Timestamp { seconds: 0, nanoseconds: 2_000_000_000 },
    };
    let json = domain.to_json().unwrap();
    assert!(json["created_at"].is_null());
    assert!(json["updated_at"].is_null());
}

#[test]
fn new_domain_has_a_lower_case_name() {
    let domain = Domain::new("ACME Corp");
    assert_eq!(domain.name, "acme corp");
    assert_eq!(domain.created_at, domain.updated_at);
    assert_eq!(domain.id.get_version_num(), 7);
    assert!(domain.created_at.seconds > 1_600_000_000);
}

#[test]
fn new_domains_have_different_identifiers() {
    assert_ne!(Domain::new("a").id, Domain::new("a").id);
}

#[test]
fn builder_starts_empty() {
    let builder = Block::builder();
    assert!(builder.parent.is_none());
    assert!(builder.name.is_none());
    let builder = BlockBuilder::default();
    assert!(builder.parent.is_none());
    assert!(builder.name.is_none());
}

#[test]
fn builder_makes_a_block_in_a_domain() {
    let block = Block::builder().domain(first()).name("web-api").finalize().unwrap();
    assert_eq!(block.name, "web-api");
    assert!(matches!(block.parent, Parent::Domain(id) if id == first()));
    assert_eq!(block.created_at, block.updated_at);
    assert_eq!(block.id.get_version_num(), 7);
}

#[test]
fn builder_makes_a_block_in_a_block() {
    let block = Block::builder().name("cache").block(second()).finalize().unwrap();
    assert_eq!(block.name, "cache");
    assert!(matches!(block.parent, Parent::Block(id) if id == second()));
}

#[test]
fn builder_keeps_the_last_parent() {
    let block = Block::builder().domain(first()).block(second()).name("x").finalize().unwrap();
    assert!(matches!(block.parent, Parent::Block(id) if id == second()));
}

#[test]
fn builder_without_a_name_fails() {
    assert!(Block::builder().domain(first()).finalize().is_err());
}

#[test]
fn builder_without_a_parent_fails() {
    assert!(Block::builder().name("web-api").finalize().is_err());
}

#[test]
fn builder_without_anything_fails() {
    assert!(Block::builder().finalize().is_err());
}

#[test]
fn builder_makes_a_block_with_the_given_identifier_and_time() {
    let at = Timestamp { seconds: 1_431_648_000, nanoseconds: 7 };
    let block =
        Block::builder().domain(first()).name("web-api").finalize_at(second(), at).unwrap();
    assert_eq!(block.id, second());
    assert_eq!(block.name, "web-api");
    assert!(matches!(block.parent, Parent::Domain(id) if id == first()));
    assert_eq!(block.created_at, at);
    assert_eq!(block.updated_at, at);
}

#[test]
fn builder_with_identifier_and_time_still_needs_name_and_parent() {
    let at = Timestamp { seconds: 0, nanoseconds: 0 };
    assert!(Block::builder().finalize_at(first(), at).is_err());
    assert!(Block::builder().name("x").finalize_at(first(), at).is_err());
    assert!(Block::builder().block(second()).finalize_at(first(), at).is_err());
}

#[test]
fn new_block_carries_the_time_of_its_making() {
    let reference = Domain::new("clock").created_at;
    let block = Block::builder().domain(first()).name("web-api").finalize().unwrap();
    assert!((block.created_at.seconds - reference.seconds).abs() <= 5);
    assert!(block.created_at.nanoseconds < 2_000_000_000);
    assert_eq!(block.created_at, block.updated_at);
}

#[test]
fn domain_is_made_with_the_given_identifier_and_time() {
    let at = Timestamp { seconds: 1_431_648_000, nanoseconds: 7 };
    let domain = Domain::new_at("ACME", first(), at);
    assert_eq!(domain.id, first());
    assert_eq!(domain.name, "acme");
    assert_eq!(domain.created_at, at);
    assert_eq!(domain.updated_at, at);
}
