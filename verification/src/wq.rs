//! Work queue management and operations.
//!
//! A work queue is the interface through which applications submit work
//! to the accelerator. Every operation follows one skeleton: validate
//! sizes, special-case empty input, build a completion record and a
//! descriptor, submit, wait for completion, translate the result.
//!
//! The queue built by [`WorkQueue::open`] is the software fallback
//! engine: it provides the identical operation set with identical
//! signatures and identical edge-case behavior for empty inputs and
//! size mismatches, but computes results without the hardware protocol.
//! Its observable contract is the acceptance bar for a hardware-backed
//! queue: return values and error conditions must be indistinguishable
//! for any given input. The fallback never raises `QueueFull`,
//! `PageFault` or `OperationFailed`, since it has no submission step.

use vstd::prelude::*;
use vstd::bytes::{spec_u64_to_le_bytes, u64_to_le_bytes};
use crate::descriptor::{spec_completion_status, CompletionStatus, DsaCompletionRecord};
use crate::error::DsaError;

verus! {

/// Default maximum retries for a rejected non-posted submission.
pub const DEFAULT_MAX_RETRIES: u32 = 1000;

/// Default spin iterations while waiting for completion.
pub const DEFAULT_SPIN_ITERATIONS: u32 = 1000000;

/// Work queue type.
#[derive(Debug, Clone, Copy, PartialEq, Eq, Structural)]
pub enum WorkQueueType {
    /// Dedicated work queue - single submitter, posted submission.
    Dedicated,
    /// Shared work queue - multiple submitters, non-posted submission.
    Shared,
}

/// Information about a work queue, as reported by device discovery.
#[derive(Debug, Clone)]
pub struct WorkQueueInfo {
    /// Work queue name (e.g., "wq0.0").
    pub name: String,
    /// State ("enabled", "disabled", etc.).
    pub state: String,
    /// Work queue type.
    pub wq_type: WorkQueueType,
    /// Queue size (number of entries).
    pub size: u32,
    /// Threshold for a shared work queue.
    pub threshold: u32,
}

/// The checksum the CRC-32 (IEEE) algorithm assigns to `data` when
/// resumed from the running checksum `seed`.
pub uninterp spec fn crc32_of(data: Seq<u8>, seed: u32) -> u32;

/// Relies on crc32fast's `Hasher` (`new_with_initial`, `update`,
/// `finalize`): `finalize` returns the internal CRC state,
/// `new_with_initial` seeds exactly that state, and `update` folds the
/// bytes into it sequentially. Hence the result depends on the bytes
/// and the seed alone, an empty input leaves the seed unchanged, and
/// processing a buffer in two pieces - the second resumed from the
/// checksum of the first - yields the checksum of the whole.
#[verifier::external_body]
fn crc32_compute(data: &[u8], seed: u32) -> (r: u32)
    ensures
        r == crc32_of(data@, seed),
        data@.len() == 0 ==> r == seed,
        forall|k: int|
            0 <= k <= data@.len() ==> r == crc32_of(data@.skip(k), crc32_of(data@.take(k), seed)),
{
    let mut hasher = crc32fast::Hasher::new_with_initial(seed);
    hasher.update(data);
    hasher.finalize()
}

/// What a checksum request returns: empty input short-circuits to the
/// seed without touching the device; anything else is the CRC-32 of the
/// data resumed from the seed.
pub open spec fn spec_checksum(data: Seq<u8>, seed: u32) -> u32 {
    if data.len() == 0 {
        seed
    } else {
        crc32_of(data, seed)
    }
}

/// The byte a fill operation writes at offset `i`: the 64-bit pattern's
/// little-endian representation, repeated.
pub open spec fn spec_fill_byte(pattern: u64, i: int) -> u8 {
    spec_u64_to_le_bytes(pattern)[i % 8]
}

/// What a compare request returns: the byte-for-byte verdict when the
/// lengths agree, and a size mismatch otherwise.
pub open spec fn spec_compare(a: Seq<u8>, b: Seq<u8>) -> Result<bool, DsaError> {
    if a.len() == b.len() {
        Ok(a == b)
    } else {
        Err(DsaError::BufferSizeMismatch { expected: a.len() as usize, actual: b.len() as usize })
    }
}

/// Law: any two checksum implementations that meet the checksum
/// contract - the software engine here, or a hardware-backed queue held
/// to the same contract - return the same value for the same buffer and
/// seed.
pub proof fn lemma_checksum_paths_agree(data: Seq<u8>, seed: u32, r1: u32, r2: u32)
    requires
        r1 == spec_checksum(data, seed),
        r2 == spec_checksum(data, seed),
    ensures
        r1 == r2,
{
}

/// Law: compare is idempotent. Its contract pins the verdict as a
/// function of the two buffer views alone, so repeating a compare of
/// the same buffers any number of times yields the same result.
pub proof fn lemma_compare_idempotent(
    a: Seq<u8>,
    b: Seq<u8>,
    r1: Result<bool, DsaError>,
    r2: Result<bool, DsaError>,
)
    requires
        r1 == spec_compare(a, b),
        r2 == spec_compare(a, b),
    ensures
        r1 == r2,
{
}

/// Translate a terminal completion record into the public result type.
///
/// This is the completion waiter's classification step: success means
/// the result fields are valid; a page fault surfaces the fault address
/// and the partial byte count; any other nonzero status surfaces the
/// raw status/result bytes as a generic operation failure. A record
/// whose status byte is still zero translates to the timeout shape, a
/// generic failure with zeroed fields, since the device never signaled
/// a reason; the poll loop around this step uses it after its iteration
/// budget is exhausted.
pub fn translate_completion(record: &DsaCompletionRecord) -> (r: Result<(), DsaError>)
    ensures
        spec_completion_status(record.status) is Success ==> r == Ok::<(), DsaError>(()),
        spec_completion_status(record.status) is PageFault ==> r == Err::<(), DsaError>(
            DsaError::PageFault { fault_addr: record.fault_addr, bytes_completed: record.bytes_completed },
        ),
        !(spec_completion_status(record.status) is Success) && !(spec_completion_status(
            record.status,
        ) is PageFault) ==> r == Err::<(), DsaError>(
            DsaError::OperationFailed { status: record.status, result: record.result },
        ),
{
    let status = record.get_status();
    match status {
        CompletionStatus::Success => Ok(()),
        CompletionStatus::PageFault => Err(
            DsaError::PageFault {
                fault_addr: record.fault_addr,
                bytes_completed: record.bytes_completed,
            },
        ),
        _ => Err(DsaError::OperationFailed { status: record.status, result: record.result }),
    }
}

/// Where the completion waiter's bounded poll stops.
///
/// `statuses[i]` is the status byte a volatile load observes on poll
/// iteration `i`. The waiter stops at the first nonzero observation
/// within its spin budget and hands that record to
/// [`translate_completion`]; if the budget is exhausted first, it
/// reports the timeout shape instead. The result is the index of the
/// stopping observation, or `None` for a timeout.
pub fn poll_stop_index(statuses: &[u8], spin_iterations: u32) -> (r: Option<usize>)
    ensures
        r matches Some(i) ==> 0 <= i < spin_iterations && i < statuses@.len() && statuses@[i as int]
            != 0 && (forall|j: int| 0 <= j < i ==> statuses@[j] == 0),
        r is None ==> forall|j: int|
            0 <= j < spin_iterations && j < statuses@.len() ==> statuses@[j] == 0,
{
    let mut i: usize = 0;
    while i < statuses.len() && (i as u64) < (spin_iterations as u64)
        invariant
            i <= statuses@.len(),
            forall|j: int| 0 <= j < i ==> statuses@[j] == 0,
        decreases statuses@.len() - i,
    {
        if statuses[i] != 0 {
            return Some(i);
        }
        i = i + 1;
    }
    None
}

/// Handle to an open work queue, computing with the software engine.
///
/// The submission-mode, retry and poll knobs are mutable configuration
/// on an otherwise long-lived handle; a hardware-backed queue reads
/// them to drive its bounded submission retries and its bounded
/// completion poll.
#[derive(Debug, Clone)]
pub struct WorkQueue {
    /// Work queue type (determines the submission instruction).
    pub wq_type: WorkQueueType,
    /// Maximum retries for a rejected non-posted submission.
    pub max_retries: u32,
    /// Spin iterations for completion polling.
    pub spin_iterations: u32,
}

impl WorkQueue {
    /// Open a software work queue.
    ///
    /// The path names the device the caller meant to reach; the
    /// software engine needs no device, so opening always succeeds,
    /// with the configuration knobs at their defaults.
    pub fn open(_path: &str) -> (r: Result<Self, DsaError>)
        ensures
            r == Ok::<WorkQueue, DsaError>(
                WorkQueue {
                    wq_type: WorkQueueType::Shared,
                    max_retries: DEFAULT_MAX_RETRIES,
                    spin_iterations: DEFAULT_SPIN_ITERATIONS,
                },
            ),
    {
        Ok(
            Self {
                wq_type: WorkQueueType::Shared,
                max_retries: DEFAULT_MAX_RETRIES,
                spin_iterations: DEFAULT_SPIN_ITERATIONS,
            },
        )
    }

    /// Set the work queue type.
    pub fn set_wq_type(&mut self, wq_type: WorkQueueType)
        ensures
            *final(self) == (WorkQueue { wq_type, ..*old(self) }),
    {
        self.wq_type = wq_type;
    }

    /// Set the maximum retries for non-posted submissions.
    pub fn set_max_retries(&mut self, retries: u32)
        ensures
            *final(self) == (WorkQueue { max_retries: retries, ..*old(self) }),
    {
        self.max_retries = retries;
    }

    /// Set the spin iterations for completion polling.
    pub fn set_spin_iterations(&mut self, iterations: u32)
        ensures
            *final(self) == (WorkQueue { spin_iterations: iterations, ..*old(self) }),
    {
        self.spin_iterations = iterations;
    }

    /// Get the work queue type.
    pub fn wq_type(&self) -> (r: WorkQueueType)
        ensures
            r == self.wq_type,
    {
        self.wq_type
    }

    /// Returns true if this work queue computes with the software
    /// engine. A queue opened by this crate always does; hardware
    /// queues live with the code that owns the device mapping.
    pub fn is_software_fallback(&self) -> (r: bool)
        ensures
            r,
    {
        true
    }

    /// Compute the CRC32 checksum of `data`, resumed from `seed`.
    ///
    /// Empty input returns the seed unchanged without touching any
    /// device. The second clause is the chaining law: splitting the
    /// input at any point and feeding the first piece's checksum as the
    /// second piece's seed yields the same value.
    pub fn crc32(&self, data: &[u8], seed: u32) -> (r: Result<u32, DsaError>)
        ensures
            r == Ok::<u32, DsaError>(spec_checksum(data@, seed)),
            forall|k: int|
                0 <= k <= data@.len() ==> r == Ok::<u32, DsaError>(
                    spec_checksum(data@.skip(k), spec_checksum(data@.take(k), seed)),
                ),
    {
        if data.is_empty() {
            proof {
                assert forall|k: int| 0 <= k <= data@.len() implies spec_checksum(
                    data@.skip(k),
                    spec_checksum(data@.take(k), seed),
                ) == seed by {
                    assert(data@.skip(k).len() == 0);
                    assert(data@.take(k).len() == 0);
                }
            }
            return Ok(seed);
        }
        let c = crc32_compute(data, seed);
        proof {
            assert forall|k: int| 0 <= k <= data@.len() implies spec_checksum(
                data@.skip(k),
                spec_checksum(data@.take(k), seed),
            ) == c by {
                if k == 0 {
                    assert(data@.skip(0) =~= data@);
                    assert(data@.take(0).len() == 0);
                } else if k == data@.len() {
                    assert(data@.take(data@.len() as int) =~= data@);
                    assert(data@.skip(data@.len() as int).len() == 0);
                } else {
                    assert(data@.take(k).len() == k);
                    assert(data@.skip(k).len() == data@.len() - k);
                }
            }
        }
        Ok(c)
    }

    /// Copy `src` into the front of `dst`.
    ///
    /// Fails with a size mismatch, before touching anything, when `dst`
    /// is smaller than `src`; the bytes of `dst` beyond `src`'s length
    /// are left unchanged, and an empty source is a no-op success.
    pub fn memcpy(&self, dst: &mut Vec<u8>, src: &[u8]) -> (r: Result<(), DsaError>)
        ensures
            old(dst)@.len() >= src@.len() ==> r == Ok::<(), DsaError>(()),
            old(dst)@.len() >= src@.len() ==> final(dst)@.len() == old(dst)@.len(),
            old(dst)@.len() >= src@.len() ==> final(dst)@.subrange(0, src@.len() as int) == src@,
            old(dst)@.len() >= src@.len() ==> final(dst)@.subrange(
                src@.len() as int,
                final(dst)@.len() as int,
            ) == old(dst)@.subrange(src@.len() as int, old(dst)@.len() as int),
            old(dst)@.len() >= src@.len() ==> forall|j: int|
                0 <= j < src@.len() ==> #[trigger] final(dst)@[j] == src@[j],
            old(dst)@.len() >= src@.len() ==> forall|j: int|
                src@.len() <= j < final(dst)@.len() ==> #[trigger] final(dst)@[j] == old(dst)@[j],
            old(dst)@.len() < src@.len() ==> r == Err::<(), DsaError>(
                DsaError::BufferSizeMismatch {
                    expected: src@.len() as usize,
                    actual: old(dst)@.len() as usize,
                },
            ) && final(dst)@ == old(dst)@,
    {
        if dst.len() < src.len() {
            return Err(
                DsaError::BufferSizeMismatch { expected: src.len(), actual: dst.len() },
            );
        }
        let mut k: usize = 0;
        while k < src.len()
            invariant
                k <= src@.len() <= dst@.len(),
                dst@.len() == old(dst)@.len(),
                forall|j: int| 0 <= j < k ==> dst@[j] == src@[j],
                forall|j: int| k <= j < dst@.len() ==> dst@[j] == old(dst)@[j],
            decreases src@.len() - k,
        {
            dst[k] = src[k];
            k = k + 1;
        }
        proof {
            assert(dst@.subrange(0, src@.len() as int) =~= src@);
            assert(dst@.subrange(src@.len() as int, dst@.len() as int) =~= old(dst)@.subrange(
                src@.len() as int,
                old(dst)@.len() as int,
            ));
        }
        Ok(())
    }

    /// Fill `dst` with a 64-bit pattern, repeated in little-endian byte
    /// order and truncated on the final partial repetition.
    ///
    /// An empty destination is a no-op success.
    pub fn memset(&self, dst: &mut Vec<u8>, pattern: u64) -> (r: Result<(), DsaError>)
        ensures
            r == Ok::<(), DsaError>(()),
            final(dst)@.len() == old(dst)@.len(),
            forall|i: int|
                0 <= i < final(dst)@.len() ==> final(dst)@[i] == spec_fill_byte(pattern, i),
    {
        let pattern_bytes: Vec<u8> = u64_to_le_bytes(pattern);
        let mut k: usize = 0;
        while k < dst.len()
            invariant
                k <= dst@.len(),
                dst@.len() == old(dst)@.len(),
                pattern_bytes@ == spec_u64_to_le_bytes(pattern),
                pattern_bytes@.len() == 8,
                forall|j: int| 0 <= j < k ==> dst@[j] == spec_fill_byte(pattern, j),
            decreases dst@.len() - k,
        {
            dst[k] = pattern_bytes[k % 8];
            k = k + 1;
        }
        Ok(())
    }

    /// Compare two buffers byte-for-byte.
    ///
    /// Fails with a size mismatch when the lengths differ; two empty
    /// buffers compare equal without touching any device.
    pub fn memcmp(&self, a: &[u8], b: &[u8]) -> (r: Result<bool, DsaError>)
        ensures
            r == spec_compare(a@, b@),
    {
        if a.len() != b.len() {
            return Err(DsaError::BufferSizeMismatch { expected: a.len(), actual: b.len() });
        }
        let mut k: usize = 0;
        while k < a.len()
            invariant
                k <= a@.len(),
                a@.len() == b@.len(),
                forall|j: int| 0 <= j < k ==> a@[j] == b@[j],
            decreases a@.len() - k,
        {
            if a[k] != b[k] {
                return Ok(false);
            }
            k = k + 1;
        }
        proof {
            assert(a@ =~= b@);
        }
        Ok(true)
    }

    /// Execute a no-op operation (for testing/benchmarking). The
    /// software engine completes it immediately.
    pub fn noop(&self) -> (r: Result<(), DsaError>)
        ensures
            r == Ok::<(), DsaError>(()),
    {
        Ok(())
    }
}

} // verus!
