//! Hardware descriptor and completion record structures.
//!
//! These structures mirror the fixed binary layout that the accelerator
//! consumes and produces. A descriptor occupies 64 bytes and must be
//! placed on a 64-byte boundary before submission; a completion record
//! occupies 64 bytes and must be placed on a 32-byte boundary. The
//! `to_bytes` encoding pins the exact wire layout; callers that hand a
//! record to the device are responsible for the placement requirements.

use vstd::prelude::*;
use vstd::bytes::{
    spec_u16_to_le_bytes, spec_u32_from_le_bytes, spec_u32_to_le_bytes, spec_u64_from_le_bytes,
    spec_u64_to_le_bytes, u16_to_le_bytes, u32_from_le_bytes, u32_to_le_bytes, u64_from_le_bytes,
    u64_to_le_bytes,
};
use vstd::slice::slice_subrange;
use crate::opcode::{spec_opcode_value, DsaOpcode};

verus! {

/// Size in bytes of a hardware descriptor.
pub const DESCRIPTOR_SIZE: usize = 64;

/// Required placement alignment of a hardware descriptor.
pub const DESCRIPTOR_ALIGN: usize = 64;

/// Size in bytes of a completion record.
pub const COMPLETION_RECORD_SIZE: usize = 64;

/// Required placement alignment of a completion record.
pub const COMPLETION_RECORD_ALIGN: usize = 32;

/// Descriptor flag: request a completion record write.
pub const FLAG_REQUEST_COMPLETION: u32 = 0x0001;

/// Descriptor flag: request a completion interrupt.
pub const FLAG_COMPLETION_INTERRUPT: u32 = 0x0002;

/// Descriptor flag: fence - wait for previous descriptors.
pub const FLAG_FENCE: u32 = 0x0004;

/// Descriptor flag: block on fault instead of partial completion.
pub const FLAG_BLOCK_ON_FAULT: u32 = 0x0008;

/// Descriptor flag: read source 2 as AECS (for crypto operations).
pub const FLAG_SRC2_AECS: u32 = 0x0010;

/// Descriptor flag: destination is a steering tag.
pub const FLAG_DEST_STEERING_TAG: u32 = 0x0020;

/// Descriptor flag: completion record address is valid.
pub const FLAG_CR_ADDR_VALID: u32 = 0x0040;

/// Descriptor flag: request status writeback.
pub const FLAG_STATUS_WRITEBACK: u32 = 0x0080;

/// Descriptor flag: destination readback.
pub const FLAG_DEST_READBACK: u32 = 0x0100;

/// Descriptor flag: don't allocate the destination in cache.
pub const FLAG_CACHE_CTRL: u32 = 0x0200;

/// Mask of the flag bits within the flags/opcode word (bits 0-23).
pub const FLAGS_MASK: u32 = 0x00FF_FFFF;

/// The opcode held in bits 24-31 of a flags/opcode word.
pub open spec fn spec_opcode_of(flags_opcode: u32) -> u8 {
    (flags_opcode >> 24) as u8
}

/// The flag bits held in bits 0-23 of a flags/opcode word.
pub open spec fn spec_flags_of(flags_opcode: u32) -> u32 {
    flags_opcode & 0x00FF_FFFF
}

/// Bit facts about an all-zero flags/opcode word that the builders rely
/// on.
proof fn lemma_zero_flags_word()
    by (bit_vector)
    ensures
        0u32 & 0x00FF_FFFF == 0u32,
        0u32 | 1u32 == 1u32,
        (0u32 >> 24) as u8 == 0u8,
{
}

/// 64-byte hardware descriptor.
///
/// One descriptor describes one operation. It is built fresh for each
/// submission and is valid only until the paired completion record
/// observes a terminal status.
///
/// Wire layout (see [`DsaHwDesc::spec_bytes`]): bytes 0-3 PASID word,
/// bytes 4-7 flags (bits 0-23) and opcode (bits 24-31), bytes 8-15
/// completion record address, bytes 16-23 first address/value field,
/// bytes 24-31 second address/value field, bytes 32-35 transfer size,
/// bytes 36-37 interrupt handle, bytes 38-39 reserved, bytes 40-47
/// second source address, bytes 48-55 seed/auxiliary value, bytes 56-63
/// reserved.
#[derive(Debug, Clone, Copy, PartialEq, Eq, Structural)]
pub struct DsaHwDesc {
    /// PASID (bits 19:0) and privilege level (bit 31).
    pub pasid: u32,
    /// Flags (bits 23:0) and opcode (bits 31:24).
    pub flags_opcode: u32,
    /// Address of the completion record (32-byte aligned).
    pub completion_addr: u64,
    /// Source address; for a fill operation, the 64-bit pattern.
    pub src_addr: u64,
    /// Destination address; for a compare operation, the second source.
    pub dst_addr: u64,
    /// Transfer size in bytes.
    pub xfer_size: u32,
    /// Interrupt handle for completion interrupts.
    pub int_handle: u16,
    /// Source 2 address or delta record address.
    pub src2_addr: u64,
    /// Maximum delta record size, or CRC seed in bits 31:0.
    pub crc_seed_or_delta_size: u64,
}

impl DsaHwDesc {
    /// The fixed 64-byte wire encoding of this descriptor, little-endian
    /// fields in layout order, with the reserved regions zeroed.
    pub open spec fn spec_bytes(self) -> Seq<u8> {
        spec_u32_to_le_bytes(self.pasid) + spec_u32_to_le_bytes(self.flags_opcode)
            + spec_u64_to_le_bytes(self.completion_addr) + spec_u64_to_le_bytes(self.src_addr)
            + spec_u64_to_le_bytes(self.dst_addr) + spec_u32_to_le_bytes(self.xfer_size)
            + spec_u16_to_le_bytes(self.int_handle) + seq![0u8, 0u8]
            + spec_u64_to_le_bytes(self.src2_addr)
            + spec_u64_to_le_bytes(self.crc_seed_or_delta_size)
            + seq![0u8, 0u8, 0u8, 0u8, 0u8, 0u8, 0u8, 0u8]
    }

    /// True when every field of the descriptor is zero.
    pub open spec fn spec_is_zeroed(self) -> bool {
        &&& self.pasid == 0
        &&& self.flags_opcode == 0
        &&& self.completion_addr == 0
        &&& self.src_addr == 0
        &&& self.dst_addr == 0
        &&& self.xfer_size == 0
        &&& self.int_handle == 0
        &&& self.src2_addr == 0
        &&& self.crc_seed_or_delta_size == 0
    }

    /// Create a new zeroed descriptor.
    pub fn new() -> (r: Self)
        ensures
            r.spec_is_zeroed(),
    {
        Self {
            pasid: 0,
            flags_opcode: 0,
            completion_addr: 0,
            src_addr: 0,
            dst_addr: 0,
            xfer_size: 0,
            int_handle: 0,
            src2_addr: 0,
            crc_seed_or_delta_size: 0,
        }
    }

    /// Set the opcode (bits 31:24), preserving the flag bits.
    pub fn set_opcode(&mut self, opcode: DsaOpcode)
        ensures
            *final(self) == (Self {
                flags_opcode: final(self).flags_opcode,
                ..*old(self)
            }),
            spec_opcode_of(final(self).flags_opcode) == spec_opcode_value(opcode),
            spec_flags_of(final(self).flags_opcode) == spec_flags_of(old(self).flags_opcode),
    {
        let v: u8 = opcode.as_u8();
        let f: u32 = self.flags_opcode;
        let packed: u32 = (f & 0x00FF_FFFF) | ((v as u32) << 24);
        proof {
            assert((((f & 0x00FF_FFFF) | ((v as u32) << 24)) >> 24) as u8 == v
                && ((f & 0x00FF_FFFF) | ((v as u32) << 24)) & 0x00FF_FFFF == f & 0x00FF_FFFF)
                by (bit_vector);
        }
        self.flags_opcode = packed;
    }

    /// Get the opcode (bits 31:24) from this descriptor.
    pub fn opcode(&self) -> (r: u8)
        ensures
            r == spec_opcode_of(self.flags_opcode),
    {
        let f: u32 = self.flags_opcode;
        proof {
            assert(f >> 24 <= 0xFF) by (bit_vector);
        }
        (f >> 24) as u8
    }

    /// Set the flag bits (bits 23:0), preserving the opcode.
    pub fn set_flags(&mut self, flags: u32)
        ensures
            *final(self) == (Self {
                flags_opcode: final(self).flags_opcode,
                ..*old(self)
            }),
            spec_flags_of(final(self).flags_opcode) == flags & 0x00FF_FFFF,
            spec_opcode_of(final(self).flags_opcode) == spec_opcode_of(old(self).flags_opcode),
    {
        let f: u32 = self.flags_opcode;
        let packed: u32 = (f & 0xFF00_0000) | (flags & 0x00FF_FFFF);
        proof {
            assert(((f & 0xFF00_0000) | (flags & 0x00FF_FFFF)) & 0x00FF_FFFF == flags
                & 0x00FF_FFFF
                && (((f & 0xFF00_0000) | (flags & 0x00FF_FFFF)) >> 24) as u8 == (f >> 24) as u8)
                by (bit_vector);
        }
        self.flags_opcode = packed;
    }

    /// Add flag bits (OR with the existing ones), preserving the opcode.
    pub fn add_flags(&mut self, flags: u32)
        ensures
            *final(self) == (Self {
                flags_opcode: final(self).flags_opcode,
                ..*old(self)
            }),
            final(self).flags_opcode == old(self).flags_opcode | (flags & 0x00FF_FFFF),
            spec_flags_of(final(self).flags_opcode) == spec_flags_of(old(self).flags_opcode) | (
            flags & 0x00FF_FFFF),
            spec_opcode_of(final(self).flags_opcode) == spec_opcode_of(old(self).flags_opcode),
    {
        let f: u32 = self.flags_opcode;
        let packed: u32 = f | (flags & 0x00FF_FFFF);
        proof {
            assert((f | (flags & 0x00FF_FFFF)) & 0x00FF_FFFF == (f & 0x00FF_FFFF) | (flags
                & 0x00FF_FFFF)
                && ((f | (flags & 0x00FF_FFFF)) >> 24) as u8 == (f >> 24) as u8) by (bit_vector);
        }
        self.flags_opcode = packed;
    }

    /// Record the address of the completion record that must receive the
    /// completion write, and request that write.
    pub fn set_completion(&mut self, completion_addr: u64)
        ensures
            *final(self) == (Self {
                completion_addr,
                flags_opcode: final(self).flags_opcode,
                ..*old(self)
            }),
            final(self).flags_opcode == old(self).flags_opcode | FLAG_REQUEST_COMPLETION,
            spec_flags_of(final(self).flags_opcode) == spec_flags_of(old(self).flags_opcode)
                | FLAG_REQUEST_COMPLETION,
            spec_opcode_of(final(self).flags_opcode) == spec_opcode_of(old(self).flags_opcode),
    {
        self.completion_addr = completion_addr;
        self.add_flags(FLAG_REQUEST_COMPLETION);
        proof {
            assert(1u32 & 0x00FF_FFFF == 1u32) by (bit_vector);
        }
    }

    /// Create a CRC generation descriptor.
    ///
    /// The caller is responsible for the validity of the source address
    /// and length; the builder only encodes them. The hardware protocol
    /// has no meaning for a zero-length transfer, so empty input must be
    /// special-cased before reaching the builder.
    pub fn crc_gen(src_addr: u64, len: u32, seed: u32, completion_addr: u64) -> (r: Self)
        requires
            len > 0,
        ensures
            spec_opcode_of(r.flags_opcode) == spec_opcode_value(DsaOpcode::CrcGen),
            spec_flags_of(r.flags_opcode) == FLAG_REQUEST_COMPLETION,
            r.pasid == 0,
            r.completion_addr == completion_addr,
            r.src_addr == src_addr,
            r.dst_addr == 0,
            r.xfer_size == len,
            r.int_handle == 0,
            r.src2_addr == 0,
            r.crc_seed_or_delta_size == seed as u64,
    {
        proof {
            lemma_zero_flags_word();
        }
        let mut desc = Self::new();
        desc.set_opcode(DsaOpcode::CrcGen);
        desc.src_addr = src_addr;
        desc.xfer_size = len;
        desc.crc_seed_or_delta_size = seed as u64;
        desc.set_completion(completion_addr);
        desc
    }

    /// Create a memory move (copy) descriptor.
    ///
    /// The caller is responsible for the validity of the addresses and
    /// length; the builder only encodes them.
    pub fn mem_move(dst_addr: u64, src_addr: u64, len: u32, completion_addr: u64) -> (r: Self)
        requires
            len > 0,
        ensures
            spec_opcode_of(r.flags_opcode) == spec_opcode_value(DsaOpcode::MemMove),
            spec_flags_of(r.flags_opcode) == FLAG_REQUEST_COMPLETION,
            r.pasid == 0,
            r.completion_addr == completion_addr,
            r.src_addr == src_addr,
            r.dst_addr == dst_addr,
            r.xfer_size == len,
            r.int_handle == 0,
            r.src2_addr == 0,
            r.crc_seed_or_delta_size == 0,
    {
        proof {
            lemma_zero_flags_word();
        }
        let mut desc = Self::new();
        desc.set_opcode(DsaOpcode::MemMove);
        desc.src_addr = src_addr;
        desc.dst_addr = dst_addr;
        desc.xfer_size = len;
        desc.set_completion(completion_addr);
        desc
    }

    /// Create a memory fill descriptor. The 64-bit fill pattern travels
    /// in the first address/value field.
    pub fn mem_fill(dst_addr: u64, len: u32, pattern: u64, completion_addr: u64) -> (r: Self)
        requires
            len > 0,
        ensures
            spec_opcode_of(r.flags_opcode) == spec_opcode_value(DsaOpcode::MemFill),
            spec_flags_of(r.flags_opcode) == FLAG_REQUEST_COMPLETION,
            r.pasid == 0,
            r.completion_addr == completion_addr,
            r.src_addr == pattern,
            r.dst_addr == dst_addr,
            r.xfer_size == len,
            r.int_handle == 0,
            r.src2_addr == 0,
            r.crc_seed_or_delta_size == 0,
    {
        proof {
            lemma_zero_flags_word();
        }
        let mut desc = Self::new();
        desc.set_opcode(DsaOpcode::MemFill);
        desc.src_addr = pattern;
        desc.dst_addr = dst_addr;
        desc.xfer_size = len;
        desc.set_completion(completion_addr);
        desc
    }

    /// Create a memory compare descriptor. The second source travels in
    /// the destination address field.
    pub fn compare(src1_addr: u64, src2_addr: u64, len: u32, completion_addr: u64) -> (r: Self)
        requires
            len > 0,
        ensures
            spec_opcode_of(r.flags_opcode) == spec_opcode_value(DsaOpcode::Compare),
            spec_flags_of(r.flags_opcode) == FLAG_REQUEST_COMPLETION,
            r.pasid == 0,
            r.completion_addr == completion_addr,
            r.src_addr == src1_addr,
            r.dst_addr == src2_addr,
            r.xfer_size == len,
            r.int_handle == 0,
            r.src2_addr == 0,
            r.crc_seed_or_delta_size == 0,
    {
        proof {
            lemma_zero_flags_word();
        }
        let mut desc = Self::new();
        desc.set_opcode(DsaOpcode::Compare);
        desc.src_addr = src1_addr;
        desc.dst_addr = src2_addr;
        desc.xfer_size = len;
        desc.set_completion(completion_addr);
        desc
    }

    /// Create a no-op descriptor (useful for testing/synchronization).
    pub fn noop(completion_addr: u64) -> (r: Self)
        ensures
            spec_opcode_of(r.flags_opcode) == spec_opcode_value(DsaOpcode::Noop),
            spec_flags_of(r.flags_opcode) == FLAG_REQUEST_COMPLETION,
            r.pasid == 0,
            r.completion_addr == completion_addr,
            r.src_addr == 0,
            r.dst_addr == 0,
            r.xfer_size == 0,
            r.int_handle == 0,
            r.src2_addr == 0,
            r.crc_seed_or_delta_size == 0,
    {
        proof {
            lemma_zero_flags_word();
        }
        let mut desc = Self::new();
        desc.set_opcode(DsaOpcode::Noop);
        desc.set_completion(completion_addr);
        desc
    }

    /// Encode the descriptor into its fixed 64-byte wire form.
    pub fn to_bytes(&self) -> (r: Vec<u8>)
        ensures
            r@ == self.spec_bytes(),
            r@.len() == 64,
    {
        let mut out: Vec<u8> = u32_to_le_bytes(self.pasid);
        let mut part = u32_to_le_bytes(self.flags_opcode);
        out.append(&mut part);
        let mut part = u64_to_le_bytes(self.completion_addr);
        out.append(&mut part);
        let mut part = u64_to_le_bytes(self.src_addr);
        out.append(&mut part);
        let mut part = u64_to_le_bytes(self.dst_addr);
        out.append(&mut part);
        let mut part = u32_to_le_bytes(self.xfer_size);
        out.append(&mut part);
        let mut part = u16_to_le_bytes(self.int_handle);
        out.append(&mut part);
        let ghost before_reserved = out@;
        out.push(0u8);
        out.push(0u8);
        proof {
            assert(out@ =~= before_reserved + seq![0u8, 0u8]);
        }
        let mut part = u64_to_le_bytes(self.src2_addr);
        out.append(&mut part);
        let mut part = u64_to_le_bytes(self.crc_seed_or_delta_size);
        out.append(&mut part);
        let ghost before_pad = out@;
        out.push(0u8);
        out.push(0u8);
        out.push(0u8);
        out.push(0u8);
        out.push(0u8);
        out.push(0u8);
        out.push(0u8);
        out.push(0u8);
        proof {
            assert(out@ =~= before_pad + seq![0u8, 0u8, 0u8, 0u8, 0u8, 0u8, 0u8, 0u8]);
        }
        out
    }
}

impl Default for DsaHwDesc {
    /// A zeroed descriptor.
    fn default() -> (r: Self)
        ensures
            r.spec_is_zeroed(),
    {
        Self::new()
    }
}

/// 64-byte completion record.
///
/// The device writes this structure when an operation reaches a terminal
/// state. It is zero-initialized before submission, placed at a stable
/// 32-byte-aligned address that is embedded in the descriptor, mutated
/// only by the device, and read by the driver once the status byte
/// becomes nonzero. The status byte must be read with volatile loads by
/// whoever owns the live memory the device writes to; this type holds a
/// plain snapshot of that memory.
///
/// Wire layout (see [`DsaCompletionRecord::from_bytes`]): byte 0 status,
/// byte 1 result, byte 2 fault-info, byte 3 reserved, bytes 4-7 count of
/// bytes completed, bytes 8-15 fault address, bytes 16-23 result value,
/// bytes 24-31 secondary result value, bytes 32-63 reserved extension.
#[derive(Debug, Clone, Copy, PartialEq, Eq, Structural)]
pub struct DsaCompletionRecord {
    /// Completion status (nonzero when complete).
    pub status: u8,
    /// Result code; for a compare operation, 0 means the buffers are
    /// equal.
    pub result: u8,
    /// Fault information flags.
    pub fault_info: u8,
    /// Number of bytes completed before a partial completion.
    pub bytes_completed: u32,
    /// Fault address, if a page fault occurred.
    pub fault_addr: u64,
    /// Primary result value; for CRC operations the checksum is in bits
    /// 31:0.
    pub result_value: u64,
    /// Secondary result value for extended operations.
    pub result_value2: u64,
}

impl DsaCompletionRecord {
    /// True when every field of the record is zero.
    pub open spec fn spec_is_zeroed(self) -> bool {
        &&& self.status == 0
        &&& self.result == 0
        &&& self.fault_info == 0
        &&& self.bytes_completed == 0
        &&& self.fault_addr == 0
        &&& self.result_value == 0
        &&& self.result_value2 == 0
    }

    /// Create a new zeroed completion record.
    pub fn new() -> (r: Self)
        ensures
            r.spec_is_zeroed(),
    {
        Self {
            status: 0,
            result: 0,
            fault_info: 0,
            bytes_completed: 0,
            fault_addr: 0,
            result_value: 0,
            result_value2: 0,
        }
    }

    /// Reset the completion record for a fresh submission.
    pub fn reset(&mut self)
        ensures
            final(self).spec_is_zeroed(),
    {
        *self = Self::new();
    }

    /// Decode a completion record from the 64 bytes the device wrote.
    pub fn from_bytes(bytes: &[u8]) -> (r: Self)
        requires
            bytes@.len() == 64,
        ensures
            r.status == bytes@[0],
            r.result == bytes@[1],
            r.fault_info == bytes@[2],
            r.bytes_completed == spec_u32_from_le_bytes(bytes@.subrange(4, 8)),
            r.fault_addr == spec_u64_from_le_bytes(bytes@.subrange(8, 16)),
            r.result_value == spec_u64_from_le_bytes(bytes@.subrange(16, 24)),
            r.result_value2 == spec_u64_from_le_bytes(bytes@.subrange(24, 32)),
    {
        Self {
            status: bytes[0],
            result: bytes[1],
            fault_info: bytes[2],
            bytes_completed: u32_from_le_bytes(slice_subrange(bytes, 4, 8)),
            fault_addr: u64_from_le_bytes(slice_subrange(bytes, 8, 16)),
            result_value: u64_from_le_bytes(slice_subrange(bytes, 16, 24)),
            result_value2: u64_from_le_bytes(slice_subrange(bytes, 24, 32)),
        }
    }

    /// Check whether the operation has reached a terminal state.
    ///
    /// On memory the device is still writing, the status byte must reach
    /// this check through a volatile load.
    pub fn is_complete(&self) -> (r: bool)
        ensures
            r == (self.status != 0),
    {
        self.status != 0
    }

    /// Classify the completion status byte.
    pub fn get_status(&self) -> (r: CompletionStatus)
        ensures
            r == spec_completion_status(self.status),
    {
        CompletionStatus::from(self.status)
    }

    /// Get the CRC32 result value (for CRC operations).
    pub fn crc32_result(&self) -> (r: u32)
        ensures
            r == self.result_value as u32,
    {
        #[verifier::truncate]
        (self.result_value as u32)
    }

    /// Get the comparison result (for compare operations). Returns true
    /// if the buffers were equal.
    pub fn compare_result(&self) -> (r: bool)
        ensures
            r == (self.result == 0),
    {
        self.result == 0
    }
}

impl Default for DsaCompletionRecord {
    /// A zeroed completion record.
    fn default() -> (r: Self)
        ensures
            r.spec_is_zeroed(),
    {
        Self::new()
    }
}

/// Completion status codes, derived purely from the terminal value of
/// the status byte. Any unrecognized nonzero code becomes `Unknown`
/// rather than a parse failure.
#[derive(Debug, Clone, Copy, PartialEq, Eq, Structural)]
pub enum CompletionStatus {
    /// Operation not yet complete.
    Pending,
    /// Operation completed successfully.
    Success,
    /// Page fault occurred.
    PageFault,
    /// Invalid flags in descriptor.
    InvalidFlags,
    /// Unsupported operation.
    UnsupportedOp,
    /// Invalid transfer size.
    InvalidSize,
    /// Invalid completion record address.
    InvalidCompletionAddr,
    /// Hardware error.
    HardwareError,
    /// Unknown status code.
    Unknown(u8),
}

/// The classification of each status byte value.
pub open spec fn spec_completion_status(status: u8) -> CompletionStatus {
    if status == 0x00 {
        CompletionStatus::Pending
    } else if status == 0x01 {
        CompletionStatus::Success
    } else if status == 0x03 {
        CompletionStatus::PageFault
    } else if status == 0x10 {
        CompletionStatus::InvalidFlags
    } else if status == 0x11 {
        CompletionStatus::UnsupportedOp
    } else if status == 0x13 {
        CompletionStatus::InvalidSize
    } else if status == 0x19 {
        CompletionStatus::InvalidCompletionAddr
    } else if status == 0x1F {
        CompletionStatus::HardwareError
    } else {
        CompletionStatus::Unknown(status)
    }
}

impl From<u8> for CompletionStatus {
    fn from(status: u8) -> (r: Self) {
        if status == 0x00 {
            Self::Pending
        } else if status == 0x01 {
            Self::Success
        } else if status == 0x03 {
            Self::PageFault
        } else if status == 0x10 {
            Self::InvalidFlags
        } else if status == 0x11 {
            Self::UnsupportedOp
        } else if status == 0x13 {
            Self::InvalidSize
        } else if status == 0x19 {
            Self::InvalidCompletionAddr
        } else if status == 0x1F {
            Self::HardwareError
        } else {
            Self::Unknown(status)
        }
    }
}

impl vstd::std_specs::convert::FromSpecImpl<u8> for CompletionStatus {
    open spec fn obeys_from_spec() -> bool {
        true
    }

    open spec fn from_spec(v: u8) -> Self {
        spec_completion_status(v)
    }
}

impl CompletionStatus {
    /// Returns true if this status indicates success.
    pub fn is_success(&self) -> (r: bool)
        ensures
            r == (*self is Success),
    {
        matches!(self, Self::Success)
    }

    /// Returns true if this status indicates the operation is still
    /// pending.
    pub fn is_pending(&self) -> (r: bool)
        ensures
            r == (*self is Pending),
    {
        matches!(self, Self::Pending)
    }

    /// Returns true if this status indicates an error.
    pub fn is_error(&self) -> (r: bool)
        ensures
            r == !(*self is Pending || *self is Success),
    {
        !matches!(self, Self::Pending | Self::Success)
    }
}

} // verus!
