//! Turns the ordered stream of block messages of a NEAR-like chain into the
//! rows, statements and cache updates of a relational index.
//!
//! The library computes and decides; it reads no stream and talks to no
//! database. A caller hands it the messages as plain [`views`], runs the
//! statements that it hands back, and tells it how they went.
//!
//! - [`models`] holds one record type per table, with its row and its
//!   insert statement.
//! - [`db_adapters`] takes from a block what each family of records needs.
//! - [`cache`] is the bounded cache that leads from a receipt to the
//!   transaction that caused it, and [`lineage`] the search that falls back
//!   on the database where the cache has no answer.
//! - [`writer`] cuts records into batches and decides on retries.
//! - [`orchestrator`] keeps the families of a block in their order.

pub mod cache;
pub mod configs;
pub mod db_adapters;
pub mod enums;
pub mod errors;
pub mod hashes;
pub mod lineage;
pub mod models;
pub mod orchestrator;
pub mod seqs;
pub mod text;
pub mod views;
pub mod writer;

pub use cache::{ParentTransactionHashString, ReceiptsCache};
pub use errors::IndexerError;
pub use hashes::{CryptoHash, ReceiptOrDataId};
