//! Stateless construction of ledger primitives: key pairs, signatures and
//! token/transfer instructions, each wrapped in a uniform response envelope.
pub mod schema;
pub mod error;
pub mod codec;
pub mod crypto;
pub mod instruction;
pub mod handlers;
