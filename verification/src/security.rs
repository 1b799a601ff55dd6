//! Limits on the size and shape of inputs, and the rate limiter.

use vstd::prelude::*;
use crate::error::LazorKitError;

pub mod validation;

verus! {

/// Largest accepted credential identifier, in bytes.
pub const MAX_CREDENTIAL_ID_SIZE: usize = 256;

/// Largest accepted policy instruction data, in bytes.
pub const MAX_POLICY_DATA_SIZE: usize = 1024;

/// Largest accepted instruction data for the target program, in bytes.
pub const MAX_CPI_DATA_SIZE: usize = 1024;

/// Largest accepted number of accounts after the fixed ones.
pub const MAX_REMAINING_ACCOUNTS: usize = 32;

/// Balance kept back on top of rent, in lamports.
pub const MIN_RENT_EXEMPT_BUFFER: u64 = 1_000_000;

/// Oldest accepted transaction, in seconds.
pub const MAX_TRANSACTION_AGE: i64 = 300;

/// Transactions accepted within one window of the rate limiter.
pub const MAX_TRANSACTIONS_PER_BLOCK: u8 = 5;

/// Length of a window of the rate limiter, in slots.
pub const RATE_LIMIT_WINDOW_BLOCKS: u64 = 10;

/// Counts transactions in windows of slots.
pub struct RateLimiter;

impl RateLimiter {
    /// Verdict of the limiter, with the count and the window start to
    /// store: a window that has run out starts anew at `current_slot`
    /// with a count of one; within a window the count goes up until the
    /// limit is reached.
    pub open spec fn check_rate_limit_spec(
        transaction_count: u8,
        current_slot: u64,
        last_reset_slot: u64,
    ) -> Result<(bool, u8, u64), LazorKitError> {
        let elapsed: int = if current_slot >= last_reset_slot {
            current_slot - last_reset_slot
        } else {
            0
        };
        if elapsed >= RATE_LIMIT_WINDOW_BLOCKS {
            Ok((true, 1u8, current_slot))
        } else if transaction_count < MAX_TRANSACTIONS_PER_BLOCK {
            Ok((true, (transaction_count + 1) as u8, last_reset_slot))
        } else {
            Err(LazorKitError::RateLimitExceeded)
        }
    }

    /// Decides whether one more transaction is within the limit.
    pub fn check_rate_limit(transaction_count: u8, current_slot: u64, last_reset_slot: u64) -> (r:
        Result<(bool, u8, u64), LazorKitError>)
        ensures
            r == Self::check_rate_limit_spec(transaction_count, current_slot, last_reset_slot),
    {
        let slots_elapsed = current_slot.saturating_sub(last_reset_slot);
        if slots_elapsed >= RATE_LIMIT_WINDOW_BLOCKS {
            Ok((true, 1, current_slot))
        } else if transaction_count < MAX_TRANSACTIONS_PER_BLOCK {
            Ok((true, transaction_count + 1, last_reset_slot))
        } else {
            Err(LazorKitError::RateLimitExceeded)
        }
    }
}

} // verus!
