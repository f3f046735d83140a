//! A read-only, block-scoped view of a ledger's state for a transaction
//! execution engine.
//!
//! The engine reads storage cells, nonces, class hashes and compiled classes
//! "as of" one block. This crate holds the rules of that view: which reads are
//! answered with a default, which fail, which are passed to the storage
//! backend, and which historical block hashes may be disclosed. It performs no
//! input or output itself: every lookup in the backend is a function value
//! that the caller hands in.

pub mod text;
pub mod felt;
pub mod chain;
pub mod types;
pub mod block_hash_range;
pub mod error;
pub mod answer;
pub mod adapter;

