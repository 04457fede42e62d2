//! Error taxonomy for accelerator operations.
//!
//! Size and argument validation fails before any hardware interaction.
//! `QueueFull` is retried transparently inside submission up to a
//! configured bound; the other hardware-reported failures are surfaced
//! as-is with their diagnostic fields.

use vstd::prelude::*;

verus! {

/// Errors that can occur during accelerator operations.
#[derive(Debug, Clone, PartialEq, Eq)]
pub enum DsaError {
    /// No accelerator device found on the system.
    NoDeviceFound,
    /// No work queue available on the device.
    NoWorkQueue,
    /// Work queue is full (submission retries exhausted).
    QueueFull,
    /// Operation failed with a hardware-reported error.
    OperationFailed { status: u8, result: u8 },
    /// Page fault during an operation, with partial completion count.
    PageFault { fault_addr: u64, bytes_completed: u32 },
    /// Invalid argument provided.
    InvalidArgument(String),
    /// Buffer size mismatch.
    BufferSizeMismatch { expected: usize, actual: usize },
    /// I/O failure from the underlying device handle.
    Io(String),
    /// Platform not supported.
    PlatformNotSupported,
    /// Device not enabled or configured.
    DeviceNotEnabled,
    /// Permission denied accessing the device.
    PermissionDenied(String),
    /// Memory mapping failed.
    MmapFailed(String),
}

/// Result type alias for accelerator operations.
pub type DsaResult<T> = Result<T, DsaError>;

} // verus!
