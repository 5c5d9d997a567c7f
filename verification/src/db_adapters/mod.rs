//! What each family of records takes from a block: the rows to insert, the
//! statements to run and the entries to file in the lineage cache.

pub mod access_keys;
pub mod account_changes;
pub mod accounts;
pub mod blocks;
pub mod chunks;
pub mod execution_outcomes;
pub mod receipts;
pub mod transactions;
