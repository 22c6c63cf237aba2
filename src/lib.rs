//! A persistent counter for a Soroban contract.
//!
//! The count lives under one fixed symbol key, `COUNTER`, in the contract's
//! persistent storage. The host reads what the key holds, hands it to
//! `CounterContract::increment` or `CounterContract::get_count`, and writes
//! back the new count that `increment` returns. An absent entry reads as
//! zero. Adding one to `u32::MAX` is a fault: `increment` returns
//! `CounterError::Overflow`, nothing is written, and the host aborts the
//! invocation. A value of another type under the key is no count: both
//! operations return `CounterError::NotACount`.

mod counter;
mod laws;

pub use counter::{
    count_value, entry_after_increment, increment_outcome, CounterContract, CounterError,
    StoredEntry, COUNTER,
};
pub use laws::{
    entry_after_increments, lemma_consecutive_increments, lemma_empty_store_reads_zero,
    lemma_increments_from_empty,
};
