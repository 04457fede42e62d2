//! Operation codes understood by the accelerator.
//!
//! Each operation has a unique 8-bit opcode that is placed in the high
//! byte of the descriptor's flags/opcode word. Only the no-op, memory
//! move, memory fill, compare and CRC-generate operations are driven by
//! this crate; the remaining codes are recognized values reserved for
//! extension.

use vstd::prelude::*;
use vstd::string::StringExecFns;

verus! {

/// Operation codes for the accelerator's descriptor format.
#[derive(Debug, Clone, Copy, PartialEq, Eq, Hash, Structural)]
pub enum DsaOpcode {
    /// No operation - used for testing/synchronization.
    Noop,
    /// Batch operation - submit multiple descriptors at once.
    Batch,
    /// Drain - wait for all previous operations to complete.
    Drain,
    /// Memory move (copy) operation.
    MemMove,
    /// Memory fill operation.
    MemFill,
    /// Memory compare operation.
    Compare,
    /// Compare with immediate value.
    CompareImm,
    /// Create delta record between two buffers.
    CreateDelta,
    /// Apply delta record to a buffer.
    ApplyDelta,
    /// Dual-cast memory copy (copy to two destinations).
    Dualcast,
    /// Translation fetch (prefetch with address translation).
    TranslFetch,
    /// CRC32 generation.
    CrcGen,
    /// Copy with CRC32 generation.
    CopyCrc,
    /// DIF (Data Integrity Field) check.
    DifCheck,
    /// DIF insert.
    DifInsert,
    /// DIF strip.
    DifStrip,
    /// DIF update.
    DifUpdate,
    /// DIX (Data Integrity Extension) generate.
    DixGen,
    /// Cache flush.
    CacheFlush,
}

/// The 8-bit encoding of each opcode, as fixed by the hardware
/// specification.
pub open spec fn spec_opcode_value(op: DsaOpcode) -> u8 {
    match op {
        DsaOpcode::Noop => 0x00,
        DsaOpcode::Batch => 0x01,
        DsaOpcode::Drain => 0x03,
        DsaOpcode::MemMove => 0x04,
        DsaOpcode::MemFill => 0x05,
        DsaOpcode::Compare => 0x06,
        DsaOpcode::CompareImm => 0x07,
        DsaOpcode::CreateDelta => 0x08,
        DsaOpcode::ApplyDelta => 0x09,
        DsaOpcode::Dualcast => 0x0A,
        DsaOpcode::TranslFetch => 0x0D,
        DsaOpcode::CrcGen => 0x10,
        DsaOpcode::CopyCrc => 0x12,
        DsaOpcode::DifCheck => 0x13,
        DsaOpcode::DifInsert => 0x14,
        DsaOpcode::DifStrip => 0x15,
        DsaOpcode::DifUpdate => 0x16,
        DsaOpcode::DixGen => 0x17,
        DsaOpcode::CacheFlush => 0x20,
    }
}

/// The human-readable name of each opcode.
pub open spec fn spec_opcode_name(op: DsaOpcode) -> Seq<char> {
    match op {
        DsaOpcode::Noop => "NOOP"@,
        DsaOpcode::Batch => "BATCH"@,
        DsaOpcode::Drain => "DRAIN"@,
        DsaOpcode::MemMove => "MEMMOVE"@,
        DsaOpcode::MemFill => "MEMFILL"@,
        DsaOpcode::Compare => "COMPARE"@,
        DsaOpcode::CompareImm => "COMPARE_IMM"@,
        DsaOpcode::CreateDelta => "CREATE_DELTA"@,
        DsaOpcode::ApplyDelta => "APPLY_DELTA"@,
        DsaOpcode::Dualcast => "DUALCAST"@,
        DsaOpcode::TranslFetch => "TRANSL_FETCH"@,
        DsaOpcode::CrcGen => "CRC_GEN"@,
        DsaOpcode::CopyCrc => "COPY_CRC"@,
        DsaOpcode::DifCheck => "DIF_CHECK"@,
        DsaOpcode::DifInsert => "DIF_INSERT"@,
        DsaOpcode::DifStrip => "DIF_STRIP"@,
        DsaOpcode::DifUpdate => "DIF_UPDATE"@,
        DsaOpcode::DixGen => "DIX_GEN"@,
        DsaOpcode::CacheFlush => "CACHE_FLUSH"@,
    }
}

impl DsaOpcode {
    /// Returns the opcode as a u8 value.
    pub fn as_u8(self) -> (r: u8)
        ensures
            r == spec_opcode_value(self),
    {
        match self {
            DsaOpcode::Noop => 0x00,
            DsaOpcode::Batch => 0x01,
            DsaOpcode::Drain => 0x03,
            DsaOpcode::MemMove => 0x04,
            DsaOpcode::MemFill => 0x05,
            DsaOpcode::Compare => 0x06,
            DsaOpcode::CompareImm => 0x07,
            DsaOpcode::CreateDelta => 0x08,
            DsaOpcode::ApplyDelta => 0x09,
            DsaOpcode::Dualcast => 0x0A,
            DsaOpcode::TranslFetch => 0x0D,
            DsaOpcode::CrcGen => 0x10,
            DsaOpcode::CopyCrc => 0x12,
            DsaOpcode::DifCheck => 0x13,
            DsaOpcode::DifInsert => 0x14,
            DsaOpcode::DifStrip => 0x15,
            DsaOpcode::DifUpdate => 0x16,
            DsaOpcode::DixGen => 0x17,
            DsaOpcode::CacheFlush => 0x20,
        }
    }

    /// Returns a human-readable name for the opcode.
    pub fn name(self) -> (r: &'static str)
        ensures
            r@ == spec_opcode_name(self),
    {
        match self {
            DsaOpcode::Noop => "NOOP",
            DsaOpcode::Batch => "BATCH",
            DsaOpcode::Drain => "DRAIN",
            DsaOpcode::MemMove => "MEMMOVE",
            DsaOpcode::MemFill => "MEMFILL",
            DsaOpcode::Compare => "COMPARE",
            DsaOpcode::CompareImm => "COMPARE_IMM",
            DsaOpcode::CreateDelta => "CREATE_DELTA",
            DsaOpcode::ApplyDelta => "APPLY_DELTA",
            DsaOpcode::Dualcast => "DUALCAST",
            DsaOpcode::TranslFetch => "TRANSL_FETCH",
            DsaOpcode::CrcGen => "CRC_GEN",
            DsaOpcode::CopyCrc => "COPY_CRC",
            DsaOpcode::DifCheck => "DIF_CHECK",
            DsaOpcode::DifInsert => "DIF_INSERT",
            DsaOpcode::DifStrip => "DIF_STRIP",
            DsaOpcode::DifUpdate => "DIF_UPDATE",
            DsaOpcode::DixGen => "DIX_GEN",
            DsaOpcode::CacheFlush => "CACHE_FLUSH",
        }
    }

    /// Render the opcode as its name followed by its hexadecimal value,
    /// e.g. "CRC_GEN (0x10)".
    pub fn display_string(self) -> (r: String)
        ensures
            r@ == spec_opcode_name(self) + " (0x"@ + spec_hex_byte(spec_opcode_value(self))
                + ")"@,
    {
        let v: u8 = self.as_u8();
        let hi: u8 = v >> 4;
        let lo: u8 = v & 0x0F;
        proof {
            assert(v >> 4 < 16 && v & 0x0F < 16) by (bit_vector);
        }
        let mut s: String = self.name().to_owned();
        s.append(" (0x");
        s.append(hex_digit(hi));
        s.append(hex_digit(lo));
        s.append(")");
        s
    }
}

/// The lowercase hexadecimal digit for each value below 16.
pub open spec fn spec_hex_digit(n: u8) -> Seq<char> {
    if n == 0 {
        "0"@
    } else if n == 1 {
        "1"@
    } else if n == 2 {
        "2"@
    } else if n == 3 {
        "3"@
    } else if n == 4 {
        "4"@
    } else if n == 5 {
        "5"@
    } else if n == 6 {
        "6"@
    } else if n == 7 {
        "7"@
    } else if n == 8 {
        "8"@
    } else if n == 9 {
        "9"@
    } else if n == 10 {
        "a"@
    } else if n == 11 {
        "b"@
    } else if n == 12 {
        "c"@
    } else if n == 13 {
        "d"@
    } else if n == 14 {
        "e"@
    } else {
        "f"@
    }
}

/// The two lowercase hexadecimal digits of a byte.
pub open spec fn spec_hex_byte(v: u8) -> Seq<char> {
    spec_hex_digit(v >> 4) + spec_hex_digit(v & 0x0F)
}

/// The lowercase hexadecimal digit for a value below 16.
fn hex_digit(n: u8) -> (r: &'static str)
    requires
        n < 16,
    ensures
        r@ == spec_hex_digit(n),
{
    if n == 0 {
        "0"
    } else if n == 1 {
        "1"
    } else if n == 2 {
        "2"
    } else if n == 3 {
        "3"
    } else if n == 4 {
        "4"
    } else if n == 5 {
        "5"
    } else if n == 6 {
        "6"
    } else if n == 7 {
        "7"
    } else if n == 8 {
        "8"
    } else if n == 9 {
        "9"
    } else if n == 10 {
        "a"
    } else if n == 11 {
        "b"
    } else if n == 12 {
        "c"
    } else if n == 13 {
        "d"
    } else if n == 14 {
        "e"
    } else {
        "f"
    }
}

} // verus!
