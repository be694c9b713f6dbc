//! # mdbx4rs
//!
//! The decision logic of a wrapper around libmdbx that restores C-aligned
//! naming and fills API gaps of the Rust binding by calling the C library
//! directly.
//!
//! Every function here takes the plain values that the database returns
//! (return codes, out-parameters, lengths, raw keys) and decides, with a
//! proved contract, what the wrapper hands back to its caller.

pub mod error;
pub mod env;
pub mod transaction;

pub use crate::error::{checked_value, checked_value_strict, mdbx_result, ErrorCode};
pub use crate::env::{copy_destination, max_key_size_from, push_database_name};
pub use crate::transaction::{
    commit_latency_result, latency_ms, replace_buffer_len, replace_step, sequence_result,
    take_old_value, CommitLatency, ReplaceAction, ReplaceCall, TxnInfo,
};
