//! The entities of the service: domains, and the blocks that live in a
//! domain or in another block.

pub mod block;
pub mod domain;
pub mod ids;

pub use block::{Block, BlockBuilder, Parent};
pub use domain::Domain;
