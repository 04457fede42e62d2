//! High-level engine API.
//!
//! `DsaEngine` wraps a work queue and provides convenient methods for
//! the supported operations: CRC32, memory copy, fill and compare.

use vstd::prelude::*;
use crate::error::DsaError;
use crate::wq::{spec_checksum, spec_compare, spec_fill_byte, WorkQueue, WorkQueueType, DEFAULT_MAX_RETRIES, DEFAULT_SPIN_ITERATIONS};

verus! {

/// High-level engine providing convenient access to the operations of
/// one work queue.
pub struct DsaEngine {
    /// The work queue that carries out the operations.
    pub wq: WorkQueue,
}

impl DsaEngine {
    /// Open an engine on the work queue named by `path`.
    pub fn open(path: &str) -> (r: Result<Self, DsaError>)
        ensures
            r == Ok::<DsaEngine, DsaError>(
                DsaEngine {
                    wq: WorkQueue {
                        wq_type: WorkQueueType::Shared,
                        max_retries: DEFAULT_MAX_RETRIES,
                        spin_iterations: DEFAULT_SPIN_ITERATIONS,
                    },
                },
            ),
    {
        let wq = match WorkQueue::open(path) {
            Ok(wq) => wq,
            Err(e) => {
                return Err(e);
            },
        };
        Ok(Self { wq })
    }

    /// Get a reference to the underlying work queue.
    pub fn work_queue(&self) -> (r: &WorkQueue)
        ensures
            r == &self.wq,
    {
        &self.wq
    }

    /// Get a mutable reference to the underlying work queue.
    pub fn work_queue_mut(&mut self) -> (r: &mut WorkQueue)
        ensures
            *r == old(self).wq,
            final(self).wq == *final(r),
    {
        &mut self.wq
    }

    /// Compute the CRC32 checksum of the given data.
    pub fn crc32(&self, data: &[u8]) -> (r: Result<u32, DsaError>)
        ensures
            r == Ok::<u32, DsaError>(spec_checksum(data@, 0)),
    {
        self.crc32_with_seed(data, 0)
    }

    /// Compute the CRC32 checksum with an initial seed value, for
    /// chaining checksum computations.
    pub fn crc32_with_seed(&self, data: &[u8], seed: u32) -> (r: Result<u32, DsaError>)
        ensures
            r == Ok::<u32, DsaError>(spec_checksum(data@, seed)),
            forall|k: int|
                0 <= k <= data@.len() ==> r == Ok::<u32, DsaError>(
                    spec_checksum(data@.skip(k), spec_checksum(data@.take(k), seed)),
                ),
    {
        self.wq.crc32(data, seed)
    }

    /// Copy memory from source to destination.
    pub fn memcpy(&self, dst: &mut Vec<u8>, src: &[u8]) -> (r: Result<(), DsaError>)
        ensures
            old(dst)@.len() >= src@.len() ==> r == Ok::<(), DsaError>(()),
            old(dst)@.len() >= src@.len() ==> final(dst)@.len() == old(dst)@.len(),
            old(dst)@.len() >= src@.len() ==> final(dst)@.subrange(0, src@.len() as int) == src@,
            old(dst)@.len() >= src@.len() ==> final(dst)@.subrange(
                src@.len() as int,
                final(dst)@.len() as int,
            ) == old(dst)@.subrange(src@.len() as int, old(dst)@.len() as int),
            old(dst)@.len() >= src@.len() ==> forall|j: int|
                0 <= j < src@.len() ==> #[trigger] final(dst)@[j] == src@[j],
            old(dst)@.len() >= src@.len() ==> forall|j: int|
                src@.len() <= j < final(dst)@.len() ==> #[trigger] final(dst)@[j] == old(dst)@[j],
            old(dst)@.len() < src@.len() ==> r == Err::<(), DsaError>(
                DsaError::BufferSizeMismatch {
                    expected: src@.len() as usize,
                    actual: old(dst)@.len() as usize,
                },
            ) && final(dst)@ == old(dst)@,
    {
        self.wq.memcpy(dst, src)
    }

    /// Fill memory with a 64-bit pattern, repeated in little-endian
    /// byte order across the destination.
    pub fn memset(&self, dst: &mut Vec<u8>, pattern: u64) -> (r: Result<(), DsaError>)
        ensures
            r == Ok::<(), DsaError>(()),
            final(dst)@.len() == old(dst)@.len(),
            forall|i: int|
                0 <= i < final(dst)@.len() ==> final(dst)@[i] == spec_fill_byte(pattern, i),
    {
        self.wq.memset(dst, pattern)
    }

    /// Compare two memory regions byte-for-byte.
    pub fn memcmp(&self, a: &[u8], b: &[u8]) -> (r: Result<bool, DsaError>)
        ensures
            r == spec_compare(a@, b@),
    {
        self.wq.memcmp(a, b)
    }

    /// Execute a no-op operation (for measuring submission overhead or
    /// synchronizing).
    pub fn noop(&self) -> (r: Result<(), DsaError>)
        ensures
            r == Ok::<(), DsaError>(()),
    {
        self.wq.noop()
    }
}

} // verus!
