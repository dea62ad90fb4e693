//! What the two lookups of the service answer.
//!
//! A lookup asks the database for an entity by name. The functions here
//! take what the database said and decide what the handler returns: the
//! entity, a "not found" problem, or the error of the database.

pub mod blocks;
pub mod domains;

pub use blocks::BlockError;
pub use domains::DomainError;
