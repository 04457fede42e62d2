//! Submission semantics for the two descriptor-transfer instructions.
//!
//! A descriptor reaches the device through one of two 64-byte transfers
//! to the memory-mapped portal:
//!
//! - a posted transfer, for dedicated work queues: fire-and-forget, it
//!   cannot signal "queue full" and always reports acceptance, so it
//!   must only be used when the queue is guaranteed to have capacity;
//! - a non-posted transfer, for shared work queues: the device answers
//!   with an acceptance bit; a negative answer means the queue was
//!   momentarily full and the same descriptor must be retried.
//!
//! The transfers themselves are processor instructions on raw mapped
//! memory and live with the code that owns the mapping. The functions
//! here are the decision logic around them: how one attempt's answer is
//! classified, and what a bounded sequence of attempts yields.

use vstd::prelude::*;

verus! {

/// Result of a submission attempt.
#[derive(Debug, Clone, Copy, PartialEq, Eq, Structural)]
pub enum SubmitResult {
    /// Descriptor was successfully submitted.
    Success,
    /// Work queue is full, try again later.
    QueueFull,
}

/// Work queue submission mode.
#[derive(Debug, Clone, Copy, PartialEq, Eq, Structural)]
pub enum SubmitMode {
    /// Posted transfer for dedicated work queues.
    Dedicated,
    /// Non-posted transfer for shared work queues.
    Shared,
}

/// What one submission attempt yields: a posted transfer reports no
/// acceptance bit and always counts as submitted, a non-posted transfer
/// succeeds exactly when the device accepted the descriptor.
pub open spec fn spec_submit_outcome(mode: SubmitMode, accepted: bool) -> SubmitResult {
    match mode {
        SubmitMode::Dedicated => SubmitResult::Success,
        SubmitMode::Shared => if accepted {
            SubmitResult::Success
        } else {
            SubmitResult::QueueFull
        },
    }
}

/// Classify one submission attempt. `accepted` is the device's answer
/// to a non-posted transfer; it is ignored for a posted transfer, which
/// cannot signal rejection.
pub fn submit_outcome(mode: SubmitMode, accepted: bool) -> (r: SubmitResult)
    ensures
        r == spec_submit_outcome(mode, accepted),
{
    match mode {
        SubmitMode::Dedicated => SubmitResult::Success,
        SubmitMode::Shared => if accepted {
            SubmitResult::Success
        } else {
            SubmitResult::QueueFull
        },
    }
}

/// Whether the retry budget allows another non-posted attempt after
/// `attempts_made` rejected ones.
pub fn may_retry(attempts_made: u32, max_retries: u32) -> (r: bool)
    ensures
        r == (attempts_made < max_retries),
{
    attempts_made < max_retries
}

/// True when some attempt within the first `budget` entries of
/// `accepts` was accepted by the device.
pub open spec fn spec_accepted_within(accepts: Seq<bool>, budget: int) -> bool {
    exists|i: int| 0 <= i < budget && i < accepts.len() && accepts[i]
}

/// The outcome of the bounded retry loop around a non-posted transfer.
///
/// `accepts[i]` is the device's answer to attempt `i`; the loop stops at
/// the first acceptance and gives up after `max_retries` rejected
/// attempts. Queue-full is recoverable: the caller may retry the whole
/// operation later.
pub fn bounded_retry_outcome(accepts: &[bool], max_retries: u32) -> (r: SubmitResult)
    ensures
        r is Success <==> spec_accepted_within(accepts@, max_retries as int),
{
    let mut i: usize = 0;
    while i < accepts.len() && (i as u64) < (max_retries as u64)
        invariant
            forall|j: int| 0 <= j < i ==> !accepts@[j],
            i <= accepts@.len(),
        decreases accepts@.len() - i,
    {
        if accepts[i] {
            return SubmitResult::Success;
        }
        i = i + 1;
    }
    SubmitResult::QueueFull
}

} // verus!
