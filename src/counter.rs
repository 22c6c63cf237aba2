//! The counter: what its storage entry means, and its two operations.

use vstd::prelude::*;

verus! {

/// The symbol key under which the count is stored.
pub const COUNTER: &'static str = "COUNTER";

/// What the counter's storage key holds.
#[derive(Debug, Clone, Copy, PartialEq, Eq, Structural)]
pub enum StoredEntry {
    /// The key has no entry.
    Absent,
    /// The key holds this `u32`.
    U32(u32),
    /// The key holds a value of another type.
    Other,
}

/// Why the counter could not be read or changed.
#[derive(Debug, Clone, Copy, PartialEq, Eq, Structural)]
pub enum CounterError {
    /// The count already stands at `u32::MAX`.
    Overflow,
    /// The counter's key holds a value that is not a `u32`.
    NotACount,
}

/// The contract that owns the counter. It holds no state of its own: each
/// operation is handed what the counter's key holds at the time of the call.
pub struct CounterContract;

/// The count that a stored entry stands for: an absent entry is zero, and a
/// value of another type is no count.
pub open spec fn count_value(stored: StoredEntry) -> Result<u32, CounterError> {
    match stored {
        StoredEntry::Absent => Ok(0),
        StoredEntry::U32(c) => Ok(c),
        StoredEntry::Other => Err(CounterError::NotACount),
    }
}

/// What `increment` returns when the counter's key holds `stored`.
pub open spec fn increment_outcome(stored: StoredEntry) -> Result<u32, CounterError> {
    match count_value(stored) {
        Ok(c) => if c < u32::MAX {
            Ok((c + 1) as u32)
        } else {
            Err(CounterError::Overflow)
        },
        Err(e) => Err(e),
    }
}

/// What the counter's key holds after one `increment`: the new count on
/// success, and the old entry, unchanged, on an error.
pub open spec fn entry_after_increment(stored: StoredEntry) -> StoredEntry {
    match increment_outcome(stored) {
        Ok(n) => StoredEntry::U32(n),
        Err(_) => stored,
    }
}

impl CounterContract {
    /// The count after one increment from what the counter's key holds: the
    /// count plus one, `Overflow` at `u32::MAX`, or `NotACount`. On `Ok(n)`
    /// the caller writes `n` under the key; on an error it writes nothing.
    pub fn increment(stored: StoredEntry) -> (r: Result<u32, CounterError>)
        ensures
            r == increment_outcome(stored),
    {
        match CounterContract::get_count(stored) {
            Ok(current) => match current.checked_add(1) {
                Some(n) => Ok(n),
                None => Err(CounterError::Overflow),
            },
            Err(e) => Err(e),
        }
    }

    /// The count that what the counter's key holds stands for: zero where
    /// nothing was ever written, and `NotACount` where the key holds a value
    /// of another type.
    pub fn get_count(stored: StoredEntry) -> (r: Result<u32, CounterError>)
        ensures
            r == count_value(stored),
    {
        match stored {
            StoredEntry::Absent => Ok(0),
            StoredEntry::U32(c) => Ok(c),
            StoredEntry::Other => Err(CounterError::NotACount),
        }
    }
}

} // verus!
