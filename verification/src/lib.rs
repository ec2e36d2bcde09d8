//! Deterministic generator of plain-text-accounting test journals.
//!
//! The library renders transactions in one of several journal flavors,
//! derives stable transaction identifiers, routes each transaction to the
//! file of its shard, and decides when a file has to be created and when an
//! open one is reused. Reading arguments and touching the file system are
//! left to the caller.

pub mod cli_args;
pub mod error;
pub mod generators;
pub mod names;
pub mod run;
pub mod setup;
pub mod text;
pub mod time;
pub mod txn_uuid;
pub mod writers;
