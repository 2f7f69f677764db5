//! Authenticated state engine of a rollup ledger node.
//!
//! The crate keeps the account tree, the nullifier tree and the chain of block
//! hashes, checks a new block against them before anything is changed, and
//! assembles proven transactions into batches.
pub mod digest;
pub mod merkle;
pub mod nullifier_tree;
pub mod account_tree;
pub mod chain_mmr;
pub mod block_header;
pub mod requests;
pub mod account;
pub mod notes;
pub mod errors;
pub mod note_tree;
pub mod state;
pub mod batch;
pub mod store_api;
pub mod laws;
pub mod mock_store;
pub mod sync;
pub mod protocol;
