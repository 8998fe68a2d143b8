//! Coordination layer for incremental, grammar-driven parsing.
//!
//! The crate translates between the two position models of a text document
//! (absolute byte offset and line/byte-column), drives a pull-based chunk
//! protocol that captures errors from the chunk source without letting them
//! cross the engine's callback boundary, manages shared syntax-tree handles
//! with fail-fast single-writer access, and owns the parser configuration
//! (language, timeout, included ranges, reset state).  The grammar engine
//! itself is an external collaborator reached through a small set of trusted
//! wrappers.

pub mod chunks;
pub mod engine;
pub mod error;
pub mod lang;
pub mod parser;
pub mod position;
pub mod ranges;
pub mod tree;
