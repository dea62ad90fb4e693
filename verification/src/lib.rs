//! Request-scoped data access and error shaping for a read-only metadata
//! lookup service.
//!
//! The crate holds the parts of the service that decide something: how a
//! failure becomes an RFC 9457 problem document, how connection settings
//! are assembled from defaults and environment values, and how the stored
//! entities are laid out as JSON.

pub mod address;
pub mod error;
pub mod handlers;
pub mod headers;
pub mod json;
pub mod models;
pub mod problems;
pub mod state;
pub mod status;
pub mod text;
