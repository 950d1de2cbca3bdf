//! Retry policy for calls to the embedding service.
//!
//! The embedding program loops: it makes one attempt, hands the outcome
//! here, and either returns, sleeps the given backoff and tries again, or
//! gives up. The decision — and the exponential backoff schedule — is all
//! here; the request itself is the program's.

use vstd::prelude::*;

verus! {

/// Attempts allowed when fetching an embedding.
pub const EMBED_MAX_RETRIES: u32 = 2;

/// Attempts allowed when probing the embedding service's health.
pub const HEALTH_MAX_RETRIES: u32 = 6;

/// How one attempt went, as the caller reports it.
pub enum AttemptOutcome {
    /// The call returned a success status.
    Success,
    /// The call failed or returned a non-success status.
    Failure,
}

/// What to do after an attempt.
pub enum RetryDecision {
    /// The attempt succeeded: stop and use its result.
    Done,
    /// Sleep this many seconds, then attempt again.
    Retry { delay_secs: u64 },
    /// The attempt budget is spent: give up.
    GiveUp,
}

/// Decides what follows the attempt numbered `attempts_done` (counting from
/// zero). A failure before the budget is spent is retried after an
/// exponential backoff that doubles with each retry; the first retry waits
/// two seconds.
pub fn retry_step(max_retries: u32, attempts_done: u32, outcome: &AttemptOutcome) -> (r:
    RetryDecision)
    requires
        attempts_done < max_retries,
        max_retries < 64,
    ensures
        match r {
            RetryDecision::Done => outcome is Success,
            RetryDecision::Retry { delay_secs } => outcome is Failure && attempts_done + 1
                < max_retries && delay_secs == (1u64 << ((attempts_done + 1) as u64)),
            RetryDecision::GiveUp => outcome is Failure && attempts_done + 1 >= max_retries,
        },
{
    match outcome {
        AttemptOutcome::Success => RetryDecision::Done,
        AttemptOutcome::Failure => {
            let next = attempts_done + 1;
            if next < max_retries {
                RetryDecision::Retry { delay_secs: 1u64 << (next as u64) }
            } else {
                RetryDecision::GiveUp
            }
        },
    }
}

} // verus!
