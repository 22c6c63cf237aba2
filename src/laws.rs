//! Facts about sequences of counter operations, stated over the model that
//! the operations' contracts use.

use vstd::prelude::*;

use crate::counter::{
    count_value, entry_after_increment, increment_outcome, CounterError, StoredEntry,
};

verus! {

/// What the counter's key holds after `n` increments, one after the other,
/// from `stored`.
pub open spec fn entry_after_increments(stored: StoredEntry, n: nat) -> StoredEntry
    decreases n,
{
    if n == 0 {
        stored
    } else {
        entry_after_increment(entry_after_increments(stored, (n - 1) as nat))
    }
}

/// Reading a key that has no entry gives zero.
pub proof fn lemma_empty_store_reads_zero()
    ensures
        count_value(StoredEntry::Absent) == Ok::<u32, CounterError>(0),
{
}

/// From a key with no entry, after `n` increments the count is `n`, and the
/// `n`-th increment returned `n`.
pub proof fn lemma_increments_from_empty(n: nat)
    requires
        n <= u32::MAX,
    ensures
        count_value(entry_after_increments(StoredEntry::Absent, n)) == Ok::<u32, CounterError>(
            n as u32,
        ),
        n >= 1 ==> increment_outcome(entry_after_increments(StoredEntry::Absent, (n - 1) as nat))
            == Ok::<u32, CounterError>(n as u32),
    decreases n,
{
    if n >= 1 {
        lemma_increments_from_empty((n - 1) as nat);
    }
}

/// Two increments in a row from a count `c`, with no overflow, return `c + 1`
/// and then `c + 2`: they differ by exactly one.
pub proof fn lemma_consecutive_increments(stored: StoredEntry, c: u32)
    requires
        count_value(stored) == Ok::<u32, CounterError>(c),
        c + 2 <= u32::MAX,
    ensures
        increment_outcome(stored) == Ok::<u32, CounterError>((c + 1) as u32),
        increment_outcome(entry_after_increment(stored)) == Ok::<u32, CounterError>(
            (c + 2) as u32,
        ),
{
}

} // verus!
