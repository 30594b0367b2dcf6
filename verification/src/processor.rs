//! Virtual-processor state: run exits and registers.
//!
//! The native run primitive fills one fixed-size output buffer whose
//! interpretation depends on an out-of-band exit reason, and register
//! values travel as fixed-size blocks whose interpretation depends on the
//! register name.  This module holds both dispatch layers: the exit-reason
//! table that turns one run exit into a strongly-typed payload, and the
//! register classification that turns a register name into the one valid
//! reading of its raw value.

use vstd::bytes::{
    spec_u16_from_le_bytes, spec_u16_to_le_bytes, spec_u32_from_le_bytes, spec_u32_to_le_bytes,
    spec_u64_from_le_bytes, spec_u64_to_le_bytes, spec_u128_from_le_bytes, spec_u128_to_le_bytes,
};
use vstd::prelude::*;

use crate::fields::{
    DeliverabilityNotificationsRegister, FpRegister, PendingExceptionEvent, PendingExtIntEvent,
    PendingInterruptionRegister,
};
use crate::flags::{
    InterruptStateRegister, IoPortAccessInfo, MemoryAccessInfo, MsrAccessInfo, RdtscInfo,
    VpExceptionInfo, X64ExecutionState, X64SegmentRegisterAttributes,
};
use crate::wire::{
    lemma_le_round_trips, push_u128, push_u16, push_u32, push_u64, push_u8, push_zeros,
    read_bytes16, read_u128, read_u16, read_u32, read_u64, read_u8, zeros,
};
use crate::Error;

verus! {

broadcast use vstd::array::group_array_axioms;

/// The byte size of the native run-exit output buffer: a 4-byte reason,
/// 4 reserved bytes, the 40-byte architectural context, and the 176-byte
/// extension union.
pub const RUN_EXIT_CONTEXT_BYTES: usize = 224;

/// The byte offset of the extension union inside the run-exit buffer.
pub const RUN_EXIT_EXTENSION_OFFSET: usize = 48;

/// The byte size of the extension union of the run-exit buffer.
pub const RUN_EXIT_EXTENSION_BYTES: usize = 176;

/// The byte size of one native register value.
pub const REGISTER_VALUE_BYTES: usize = 16;

/// Why the virtual processor stopped executing and yielded to the caller.
#[derive(Debug, Clone, Copy, PartialEq, Eq)]
pub enum RunExitReason {
    NoReason,
    MemoryAccess,
    X64IoPortAccess,
    UnrecoverableException,
    InvalidVpRegisterValue,
    UnsupportedFeature,
    X64InterruptWindow,
    X64Halt,
    X64ApicEoi,
    SynicSintDeliverable,
    X64MsrAccess,
    X64Cpuid,
    Exception,
    X64Rdtsc,
    X64ApicSmiTrap,
    Hypercall,
    X64ApicInitSipiTrap,
    X64ApicWriteTrap,
    Canceled,
}

impl RunExitReason {
    /// The exit reason for a raw native value.
    pub open spec fn spec_from_raw(raw: u32) -> Result<RunExitReason, Error> {
        if raw == 0x0 {
            Ok(RunExitReason::NoReason)
        } else if raw == 0x1 {
            Ok(RunExitReason::MemoryAccess)
        } else if raw == 0x2 {
            Ok(RunExitReason::X64IoPortAccess)
        } else if raw == 0x4 {
            Ok(RunExitReason::UnrecoverableException)
        } else if raw == 0x5 {
            Ok(RunExitReason::InvalidVpRegisterValue)
        } else if raw == 0x6 {
            Ok(RunExitReason::UnsupportedFeature)
        } else if raw == 0x7 {
            Ok(RunExitReason::X64InterruptWindow)
        } else if raw == 0x8 {
            Ok(RunExitReason::X64Halt)
        } else if raw == 0x9 {
            Ok(RunExitReason::X64ApicEoi)
        } else if raw == 0xA {
            Ok(RunExitReason::SynicSintDeliverable)
        } else if raw == 0x1000 {
            Ok(RunExitReason::X64MsrAccess)
        } else if raw == 0x1001 {
            Ok(RunExitReason::X64Cpuid)
        } else if raw == 0x1002 {
            Ok(RunExitReason::Exception)
        } else if raw == 0x1003 {
            Ok(RunExitReason::X64Rdtsc)
        } else if raw == 0x1004 {
            Ok(RunExitReason::X64ApicSmiTrap)
        } else if raw == 0x1005 {
            Ok(RunExitReason::Hypercall)
        } else if raw == 0x1006 {
            Ok(RunExitReason::X64ApicInitSipiTrap)
        } else if raw == 0x1007 {
            Ok(RunExitReason::X64ApicWriteTrap)
        } else if raw == 0x2001 {
            Ok(RunExitReason::Canceled)
        } else {
            Err(Error::UnrecognizedDiscriminant(raw as u64))
        }
    }

    /// Decodes a raw native exit reason; a value outside the closed set
    /// of reasons this layer knows is a fatal decoding error, never a
    /// silently-chosen default.
    pub fn from_raw(raw: u32) -> (r: Result<RunExitReason, Error>)
        ensures
            r == RunExitReason::spec_from_raw(raw),
    {
        match raw {
            0x0 => Ok(RunExitReason::NoReason),
            0x1 => Ok(RunExitReason::MemoryAccess),
            0x2 => Ok(RunExitReason::X64IoPortAccess),
            0x4 => Ok(RunExitReason::UnrecoverableException),
            0x5 => Ok(RunExitReason::InvalidVpRegisterValue),
            0x6 => Ok(RunExitReason::UnsupportedFeature),
            0x7 => Ok(RunExitReason::X64InterruptWindow),
            0x8 => Ok(RunExitReason::X64Halt),
            0x9 => Ok(RunExitReason::X64ApicEoi),
            0xA => Ok(RunExitReason::SynicSintDeliverable),
            0x1000 => Ok(RunExitReason::X64MsrAccess),
            0x1001 => Ok(RunExitReason::X64Cpuid),
            0x1002 => Ok(RunExitReason::Exception),
            0x1003 => Ok(RunExitReason::X64Rdtsc),
            0x1004 => Ok(RunExitReason::X64ApicSmiTrap),
            0x1005 => Ok(RunExitReason::Hypercall),
            0x1006 => Ok(RunExitReason::X64ApicInitSipiTrap),
            0x1007 => Ok(RunExitReason::X64ApicWriteTrap),
            0x2001 => Ok(RunExitReason::Canceled),
            _ => Err(Error::UnrecognizedDiscriminant(raw as u64)),
        }
    }

    /// The raw native value of this exit reason.
    pub open spec fn spec_to_raw(self) -> u32 {
        match self {
            RunExitReason::NoReason => 0x0,
            RunExitReason::MemoryAccess => 0x1,
            RunExitReason::X64IoPortAccess => 0x2,
            RunExitReason::UnrecoverableException => 0x4,
            RunExitReason::InvalidVpRegisterValue => 0x5,
            RunExitReason::UnsupportedFeature => 0x6,
            RunExitReason::X64InterruptWindow => 0x7,
            RunExitReason::X64Halt => 0x8,
            RunExitReason::X64ApicEoi => 0x9,
            RunExitReason::SynicSintDeliverable => 0xA,
            RunExitReason::X64MsrAccess => 0x1000,
            RunExitReason::X64Cpuid => 0x1001,
            RunExitReason::Exception => 0x1002,
            RunExitReason::X64Rdtsc => 0x1003,
            RunExitReason::X64ApicSmiTrap => 0x1004,
            RunExitReason::Hypercall => 0x1005,
            RunExitReason::X64ApicInitSipiTrap => 0x1006,
            RunExitReason::X64ApicWriteTrap => 0x1007,
            RunExitReason::Canceled => 0x2001,
        }
    }

    /// Encodes this exit reason as its raw native value.
    pub fn to_raw(&self) -> (r: u32)
        ensures
            r == self.spec_to_raw(),
    {
        match self {
            RunExitReason::NoReason => 0x0,
            RunExitReason::MemoryAccess => 0x1,
            RunExitReason::X64IoPortAccess => 0x2,
            RunExitReason::UnrecoverableException => 0x4,
            RunExitReason::InvalidVpRegisterValue => 0x5,
            RunExitReason::UnsupportedFeature => 0x6,
            RunExitReason::X64InterruptWindow => 0x7,
            RunExitReason::X64Halt => 0x8,
            RunExitReason::X64ApicEoi => 0x9,
            RunExitReason::SynicSintDeliverable => 0xA,
            RunExitReason::X64MsrAccess => 0x1000,
            RunExitReason::X64Cpuid => 0x1001,
            RunExitReason::Exception => 0x1002,
            RunExitReason::X64Rdtsc => 0x1003,
            RunExitReason::X64ApicSmiTrap => 0x1004,
            RunExitReason::Hypercall => 0x1005,
            RunExitReason::X64ApicInitSipiTrap => 0x1006,
            RunExitReason::X64ApicWriteTrap => 0x1007,
            RunExitReason::Canceled => 0x2001,
        }
    }
}

/// One x64 segment register.
#[derive(Debug, Clone, Copy, PartialEq, Eq)]
pub struct SegmentRegister {
    pub base: u64,
    pub limit: u32,
    pub selector: u16,
    pub attributes: X64SegmentRegisterAttributes,
}

impl SegmentRegister {
    /// The 16-byte wire image: base, limit, selector, attribute bits.
    pub open spec fn spec_to_bytes(self) -> Seq<u8> {
        spec_u64_to_le_bytes(self.base) + spec_u32_to_le_bytes(self.limit) + spec_u16_to_le_bytes(
            self.selector,
        ) + spec_u16_to_le_bytes(self.attributes.bits)
    }

    /// The segment register whose wire image starts at offset `off` of `s`.
    pub open spec fn spec_from_bytes(s: Seq<u8>, off: int) -> SegmentRegister {
        SegmentRegister {
            base: spec_u64_from_le_bytes(s.subrange(off, off + 8)),
            limit: spec_u32_from_le_bytes(s.subrange(off + 8, off + 12)),
            selector: spec_u16_from_le_bytes(s.subrange(off + 12, off + 14)),
            attributes: X64SegmentRegisterAttributes {
                bits: spec_u16_from_le_bytes(s.subrange(off + 14, off + 16)),
            },
        }
    }

    /// Reads the segment register at offset `off` of `buf`.
    pub fn read_from(buf: &[u8], off: usize) -> (r: SegmentRegister)
        requires
            off + 16 <= buf@.len(),
        ensures
            r == SegmentRegister::spec_from_bytes(buf@, off as int),
    {
        let n = buf.len();
        SegmentRegister {
            base: read_u64(buf, off),
            limit: read_u32(buf, off + 8),
            selector: read_u16(buf, off + 12),
            attributes: X64SegmentRegisterAttributes::from_bits_retain(read_u16(buf, off + 14)),
        }
    }

    /// Appends the 16-byte wire image of this segment register to `out`.
    pub fn push_onto(&self, out: &mut Vec<u8>)
        ensures
            final(out)@ == old(out)@ + self.spec_to_bytes(),
    {
        push_u64(out, self.base);
        push_u32(out, self.limit);
        push_u16(out, self.selector);
        push_u16(out, self.attributes.bits);
        proof {
            assert(out@ =~= old(out)@ + self.spec_to_bytes());
        }
    }
}

/// One x64 descriptor-table register.
#[derive(Debug, Clone, Copy, PartialEq, Eq)]
pub struct TableRegister {
    pub pad: [u16; 3],
    pub limit: u16,
    pub base: u64,
}

impl TableRegister {
    /// The 16-byte wire image: three padding words, the limit, the base.
    pub open spec fn spec_to_bytes(self) -> Seq<u8> {
        spec_u16_to_le_bytes(self.pad[0]) + spec_u16_to_le_bytes(self.pad[1])
            + spec_u16_to_le_bytes(self.pad[2]) + spec_u16_to_le_bytes(self.limit)
            + spec_u64_to_le_bytes(self.base)
    }

    /// The table register whose wire image starts at offset `off` of `s`.
    pub open spec fn spec_from_bytes(s: Seq<u8>, off: int) -> TableRegister {
        TableRegister {
            pad: [
                spec_u16_from_le_bytes(s.subrange(off, off + 2)),
                spec_u16_from_le_bytes(s.subrange(off + 2, off + 4)),
                spec_u16_from_le_bytes(s.subrange(off + 4, off + 6)),
            ],
            limit: spec_u16_from_le_bytes(s.subrange(off + 6, off + 8)),
            base: spec_u64_from_le_bytes(s.subrange(off + 8, off + 16)),
        }
    }

    /// Reads the table register at offset `off` of `buf`.
    pub fn read_from(buf: &[u8], off: usize) -> (r: TableRegister)
        requires
            off + 16 <= buf@.len(),
        ensures
            r == TableRegister::spec_from_bytes(buf@, off as int),
    {
        let n = buf.len();
        TableRegister {
            pad: [read_u16(buf, off), read_u16(buf, off + 2), read_u16(buf, off + 4)],
            limit: read_u16(buf, off + 6),
            base: read_u64(buf, off + 8),
        }
    }

    /// Appends the 16-byte wire image of this table register to `out`.
    pub fn push_onto(&self, out: &mut Vec<u8>)
        ensures
            final(out)@ == old(out)@ + self.spec_to_bytes(),
    {
        push_u16(out, self.pad[0]);
        push_u16(out, self.pad[1]);
        push_u16(out, self.pad[2]);
        push_u16(out, self.limit);
        push_u64(out, self.base);
        proof {
            assert(out@ =~= old(out)@ + self.spec_to_bytes());
        }
    }
}

/// The x87 control and status words, with the last-instruction pointer.
#[derive(Debug, Clone, Copy, PartialEq, Eq)]
pub struct X64FpControlStatusRegister {
    pub control: u16,
    pub status: u16,
    pub tag: u8,
    pub last_op: u16,
    pub last_rip: u64,
}

impl X64FpControlStatusRegister {
    /// The 16-byte wire image: control, status, tag, one reserved byte,
    /// last opcode, last instruction pointer.
    pub open spec fn spec_to_bytes(self) -> Seq<u8> {
        spec_u16_to_le_bytes(self.control) + spec_u16_to_le_bytes(self.status) + seq![self.tag]
            + seq![0u8] + spec_u16_to_le_bytes(self.last_op) + spec_u64_to_le_bytes(self.last_rip)
    }

    /// The register whose wire image starts at offset `off` of `s`.
    pub open spec fn spec_from_bytes(s: Seq<u8>, off: int) -> X64FpControlStatusRegister {
        X64FpControlStatusRegister {
            control: spec_u16_from_le_bytes(s.subrange(off, off + 2)),
            status: spec_u16_from_le_bytes(s.subrange(off + 2, off + 4)),
            tag: s[off + 4],
            last_op: spec_u16_from_le_bytes(s.subrange(off + 6, off + 8)),
            last_rip: spec_u64_from_le_bytes(s.subrange(off + 8, off + 16)),
        }
    }

    /// Reads the register at offset `off` of `buf`.
    pub fn read_from(buf: &[u8], off: usize) -> (r: X64FpControlStatusRegister)
        requires
            off + 16 <= buf@.len(),
        ensures
            r == X64FpControlStatusRegister::spec_from_bytes(buf@, off as int),
    {
        let n = buf.len();
        X64FpControlStatusRegister {
            control: read_u16(buf, off),
            status: read_u16(buf, off + 2),
            tag: read_u8(buf, off + 4),
            last_op: read_u16(buf, off + 6),
            last_rip: read_u64(buf, off + 8),
        }
    }

    /// Appends the 16-byte wire image of this register to `out`.
    pub fn push_onto(&self, out: &mut Vec<u8>)
        ensures
            final(out)@ == old(out)@ + self.spec_to_bytes(),
    {
        push_u16(out, self.control);
        push_u16(out, self.status);
        push_u8(out, self.tag);
        push_u8(out, 0);
        push_u16(out, self.last_op);
        push_u64(out, self.last_rip);
        proof {
            assert(out@ =~= old(out)@ + self.spec_to_bytes());
        }
    }
}

/// The media control and status register, with the last-operand pointer.
#[derive(Debug, Clone, Copy, PartialEq, Eq)]
pub struct X64XmmControlStatusRegister {
    pub last_rdp: u64,
    pub status_control: u32,
    pub status_control_mask: u32,
}

impl X64XmmControlStatusRegister {
    /// The 16-byte wire image: last operand pointer, status/control word,
    /// status/control mask.
    pub open spec fn spec_to_bytes(self) -> Seq<u8> {
        spec_u64_to_le_bytes(self.last_rdp) + spec_u32_to_le_bytes(self.status_control)
            + spec_u32_to_le_bytes(self.status_control_mask)
    }

    /// The register whose wire image starts at offset `off` of `s`.
    pub open spec fn spec_from_bytes(s: Seq<u8>, off: int) -> X64XmmControlStatusRegister {
        X64XmmControlStatusRegister {
            last_rdp: spec_u64_from_le_bytes(s.subrange(off, off + 8)),
            status_control: spec_u32_from_le_bytes(s.subrange(off + 8, off + 12)),
            status_control_mask: spec_u32_from_le_bytes(s.subrange(off + 12, off + 16)),
        }
    }

    /// Reads the register at offset `off` of `buf`.
    pub fn read_from(buf: &[u8], off: usize) -> (r: X64XmmControlStatusRegister)
        requires
            off + 16 <= buf@.len(),
        ensures
            r == X64XmmControlStatusRegister::spec_from_bytes(buf@, off as int),
    {
        let n = buf.len();
        X64XmmControlStatusRegister {
            last_rdp: read_u64(buf, off),
            status_control: read_u32(buf, off + 8),
            status_control_mask: read_u32(buf, off + 12),
        }
    }

    /// Appends the 16-byte wire image of this register to `out`.
    pub fn push_onto(&self, out: &mut Vec<u8>)
        ensures
            final(out)@ == old(out)@ + self.spec_to_bytes(),
    {
        push_u64(out, self.last_rdp);
        push_u32(out, self.status_control);
        push_u32(out, self.status_control_mask);
        proof {
            assert(out@ =~= old(out)@ + self.spec_to_bytes());
        }
    }
}

/// The architectural context reported with every exit: execution state,
/// the code segment, the instruction pointer and the flags register.
#[derive(Debug, Clone, Copy, PartialEq, Eq)]
pub struct ExitContext {
    pub execution_state: X64ExecutionState,
    /// Instruction length in the low nibble, the CR8 value in the high.
    pub bitfield: u8,
    pub cs: SegmentRegister,
    pub rip: u64,
    pub rflags: u64,
}

impl ExitContext {
    /// The instruction length, the low nibble of the packed byte.
    pub fn instruction_len(&self) -> (r: u8)
        ensures
            r == self.bitfield & 0xf,
    {
        self.bitfield & 0xf
    }

    /// The CR8 value, the high nibble of the packed byte.
    pub fn cr8(&self) -> (r: u8)
        ensures
            r == (self.bitfield >> 4) & 0xf,
    {
        (self.bitfield >> 4) & 0xf
    }

    /// The context whose wire image starts at offset `off` of `s`:
    /// execution state, the packed length/CR8 byte, two reserved runs,
    /// the code segment at `off + 8`, then the instruction pointer and
    /// flags register.
    pub open spec fn spec_from_bytes(s: Seq<u8>, off: int) -> ExitContext {
        ExitContext {
            execution_state: X64ExecutionState {
                bits: spec_u16_from_le_bytes(s.subrange(off, off + 2)),
            },
            bitfield: s[off + 2],
            cs: SegmentRegister::spec_from_bytes(s, off + 8),
            rip: spec_u64_from_le_bytes(s.subrange(off + 24, off + 32)),
            rflags: spec_u64_from_le_bytes(s.subrange(off + 32, off + 40)),
        }
    }

    /// Reads the architectural context at offset `off` of `buf`.
    pub fn read_from(buf: &[u8], off: usize) -> (r: ExitContext)
        requires
            off + 40 <= buf@.len(),
        ensures
            r == ExitContext::spec_from_bytes(buf@, off as int),
    {
        let n = buf.len();
        ExitContext {
            execution_state: X64ExecutionState::from_bits_retain(read_u16(buf, off)),
            bitfield: read_u8(buf, off + 2),
            cs: SegmentRegister::read_from(buf, off + 8),
            rip: read_u64(buf, off + 24),
            rflags: read_u64(buf, off + 32),
        }
    }
}

/// The payload of a guest-physical memory access exit.
#[derive(Debug, Clone, Copy, PartialEq, Eq)]
pub struct MemoryAccessContext {
    pub instruction_byte_count: u8,
    pub instruction_bytes: [u8; 16],
    pub access_info: MemoryAccessInfo,
    pub gpa: u64,
    pub gva: u64,
}

impl MemoryAccessContext {
    /// The context at the start of the extension union `s`.
    pub open spec fn spec_from_bytes(s: Seq<u8>) -> MemoryAccessContext {
        MemoryAccessContext {
            instruction_byte_count: s[0],
            instruction_bytes: [
                s[4],
                s[5],
                s[6],
                s[7],
                s[8],
                s[9],
                s[10],
                s[11],
                s[12],
                s[13],
                s[14],
                s[15],
                s[16],
                s[17],
                s[18],
                s[19],
            ],
            access_info: MemoryAccessInfo { bits: spec_u32_from_le_bytes(s.subrange(20, 24)) },
            gpa: spec_u64_from_le_bytes(s.subrange(24, 32)),
            gva: spec_u64_from_le_bytes(s.subrange(32, 40)),
        }
    }

    /// Reads the context from the extension union `buf`.
    pub fn read_from(buf: &[u8]) -> (r: MemoryAccessContext)
        requires
            buf@.len() >= 40,
        ensures
            r == MemoryAccessContext::spec_from_bytes(buf@),
    {
        let r = MemoryAccessContext {
            instruction_byte_count: read_u8(buf, 0),
            instruction_bytes: read_bytes16(buf, 4),
            access_info: MemoryAccessInfo::from_bits_retain(read_u32(buf, 20)),
            gpa: read_u64(buf, 24),
            gva: read_u64(buf, 32),
        };
        proof {
            assert(r.instruction_bytes
                =~= MemoryAccessContext::spec_from_bytes(buf@).instruction_bytes);
        }
        r
    }
}

/// The payload of an I/O port access exit.
#[derive(Debug, Clone, Copy, PartialEq, Eq)]
pub struct IoPortAccessContext {
    pub instruction_byte_count: u8,
    pub instruction_bytes: [u8; 16],
    pub access_info: IoPortAccessInfo,
    pub port_number: u16,
    pub rax: u64,
    pub rcx: u64,
    pub rsi: u64,
    pub rdi: u64,
    pub ds: SegmentRegister,
    pub es: SegmentRegister,
}

impl IoPortAccessContext {
    /// The context at the start of the extension union `s`.
    pub open spec fn spec_from_bytes(s: Seq<u8>) -> IoPortAccessContext {
        IoPortAccessContext {
            instruction_byte_count: s[0],
            instruction_bytes: [
                s[4],
                s[5],
                s[6],
                s[7],
                s[8],
                s[9],
                s[10],
                s[11],
                s[12],
                s[13],
                s[14],
                s[15],
                s[16],
                s[17],
                s[18],
                s[19],
            ],
            access_info: IoPortAccessInfo { bits: spec_u32_from_le_bytes(s.subrange(20, 24)) },
            port_number: spec_u16_from_le_bytes(s.subrange(24, 26)),
            rax: spec_u64_from_le_bytes(s.subrange(32, 40)),
            rcx: spec_u64_from_le_bytes(s.subrange(40, 48)),
            rsi: spec_u64_from_le_bytes(s.subrange(48, 56)),
            rdi: spec_u64_from_le_bytes(s.subrange(56, 64)),
            ds: SegmentRegister::spec_from_bytes(s, 64),
            es: SegmentRegister::spec_from_bytes(s, 80),
        }
    }

    /// Reads the context from the extension union `buf`.
    pub fn read_from(buf: &[u8]) -> (r: IoPortAccessContext)
        requires
            buf@.len() >= 96,
        ensures
            r == IoPortAccessContext::spec_from_bytes(buf@),
    {
        let r = IoPortAccessContext {
            instruction_byte_count: read_u8(buf, 0),
            instruction_bytes: read_bytes16(buf, 4),
            access_info: IoPortAccessInfo::from_bits_retain(read_u32(buf, 20)),
            port_number: read_u16(buf, 24),
            rax: read_u64(buf, 32),
            rcx: read_u64(buf, 40),
            rsi: read_u64(buf, 48),
            rdi: read_u64(buf, 56),
            ds: SegmentRegister::read_from(buf, 64),
            es: SegmentRegister::read_from(buf, 80),
        };
        proof {
            assert(r.instruction_bytes
                =~= IoPortAccessContext::spec_from_bytes(buf@).instruction_bytes);
        }
        r
    }
}

/// The payload of a model-specific-register access exit.
#[derive(Debug, Clone, Copy, PartialEq, Eq)]
pub struct MsrAccessContext {
    pub access_info: MsrAccessInfo,
    pub msr_number: u32,
    pub rax: u64,
    pub rdx: u64,
}

impl MsrAccessContext {
    /// The context at the start of the extension union `s`.
    pub open spec fn spec_from_bytes(s: Seq<u8>) -> MsrAccessContext {
        MsrAccessContext {
            access_info: MsrAccessInfo { bits: spec_u32_from_le_bytes(s.subrange(0, 4)) },
            msr_number: spec_u32_from_le_bytes(s.subrange(4, 8)),
            rax: spec_u64_from_le_bytes(s.subrange(8, 16)),
            rdx: spec_u64_from_le_bytes(s.subrange(16, 24)),
        }
    }

    /// Reads the context from the extension union `buf`.
    pub fn read_from(buf: &[u8]) -> (r: MsrAccessContext)
        requires
            buf@.len() >= 24,
        ensures
            r == MsrAccessContext::spec_from_bytes(buf@),
    {
        MsrAccessContext {
            access_info: MsrAccessInfo::from_bits_retain(read_u32(buf, 0)),
            msr_number: read_u32(buf, 4),
            rax: read_u64(buf, 8),
            rdx: read_u64(buf, 16),
        }
    }
}

/// The payload of a CPUID access exit: the inputs and the result the
/// hypervisor would deliver by default.
#[derive(Debug, Clone, Copy, PartialEq, Eq)]
pub struct CpuidAccessContext {
    pub rax: u64,
    pub rcx: u64,
    pub rdx: u64,
    pub rbx: u64,
    pub default_result_rax: u64,
    pub default_result_rcx: u64,
    pub default_result_rdx: u64,
    pub default_result_rbx: u64,
}

impl CpuidAccessContext {
    /// The context at the start of the extension union `s`.
    pub open spec fn spec_from_bytes(s: Seq<u8>) -> CpuidAccessContext {
        CpuidAccessContext {
            rax: spec_u64_from_le_bytes(s.subrange(0, 8)),
            rcx: spec_u64_from_le_bytes(s.subrange(8, 16)),
            rdx: spec_u64_from_le_bytes(s.subrange(16, 24)),
            rbx: spec_u64_from_le_bytes(s.subrange(24, 32)),
            default_result_rax: spec_u64_from_le_bytes(s.subrange(32, 40)),
            default_result_rcx: spec_u64_from_le_bytes(s.subrange(40, 48)),
            default_result_rdx: spec_u64_from_le_bytes(s.subrange(48, 56)),
            default_result_rbx: spec_u64_from_le_bytes(s.subrange(56, 64)),
        }
    }

    /// Reads the context from the extension union `buf`.
    pub fn read_from(buf: &[u8]) -> (r: CpuidAccessContext)
        requires
            buf@.len() >= 64,
        ensures
            r == CpuidAccessContext::spec_from_bytes(buf@),
    {
        CpuidAccessContext {
            rax: read_u64(buf, 0),
            rcx: read_u64(buf, 8),
            rdx: read_u64(buf, 16),
            rbx: read_u64(buf, 24),
            default_result_rax: read_u64(buf, 32),
            default_result_rcx: read_u64(buf, 40),
            default_result_rdx: read_u64(buf, 48),
            default_result_rbx: read_u64(buf, 56),
        }
    }
}

/// The payload of an exception exit.
#[derive(Debug, Clone, Copy, PartialEq, Eq)]
pub struct VpExceptionContext {
    pub instruction_byte_count: u8,
    pub instruction_bytes: [u8; 16],
    pub exception_info: VpExceptionInfo,
    pub exception_type: u8,
    pub error_code: u32,
    pub exception_param: u64,
}

impl VpExceptionContext {
    /// The context at the start of the extension union `s`.
    pub open spec fn spec_from_bytes(s: Seq<u8>) -> VpExceptionContext {
        VpExceptionContext {
            instruction_byte_count: s[0],
            instruction_bytes: [
                s[4],
                s[5],
                s[6],
                s[7],
                s[8],
                s[9],
                s[10],
                s[11],
                s[12],
                s[13],
                s[14],
                s[15],
                s[16],
                s[17],
                s[18],
                s[19],
            ],
            exception_info: VpExceptionInfo { bits: spec_u32_from_le_bytes(s.subrange(20, 24)) },
            exception_type: s[24],
            error_code: spec_u32_from_le_bytes(s.subrange(28, 32)),
            exception_param: spec_u64_from_le_bytes(s.subrange(32, 40)),
        }
    }

    /// Reads the context from the extension union `buf`.
    pub fn read_from(buf: &[u8]) -> (r: VpExceptionContext)
        requires
            buf@.len() >= 40,
        ensures
            r == VpExceptionContext::spec_from_bytes(buf@),
    {
        let r = VpExceptionContext {
            instruction_byte_count: read_u8(buf, 0),
            instruction_bytes: read_bytes16(buf, 4),
            exception_info: VpExceptionInfo::from_bits_retain(read_u32(buf, 20)),
            exception_type: read_u8(buf, 24),
            error_code: read_u32(buf, 28),
            exception_param: read_u64(buf, 32),
        };
        proof {
            assert(r.instruction_bytes
                =~= VpExceptionContext::spec_from_bytes(buf@).instruction_bytes);
        }
        r
    }
}

/// The feature the guest used that the hypervisor does not support.
#[derive(Debug, Clone, Copy, PartialEq, Eq)]
pub enum UnsupportedFeatureCode {
    Intercept,
    TaskSwitchTss,
}

impl UnsupportedFeatureCode {
    /// The feature code for a raw native value.
    pub open spec fn spec_from_raw(raw: u32) -> Result<UnsupportedFeatureCode, Error> {
        if raw == 1 {
            Ok(UnsupportedFeatureCode::Intercept)
        } else if raw == 2 {
            Ok(UnsupportedFeatureCode::TaskSwitchTss)
        } else {
            Err(Error::UnrecognizedDiscriminant(raw as u64))
        }
    }

    /// Decodes a raw native feature code; a value outside the closed set
    /// is an out-of-sync native layer, never coerced.
    pub fn from_raw(raw: u32) -> (r: Result<UnsupportedFeatureCode, Error>)
        ensures
            r == UnsupportedFeatureCode::spec_from_raw(raw),
    {
        match raw {
            1 => Ok(UnsupportedFeatureCode::Intercept),
            2 => Ok(UnsupportedFeatureCode::TaskSwitchTss),
            _ => Err(Error::UnrecognizedDiscriminant(raw as u64)),
        }
    }

    /// The raw native value of this feature code.
    pub open spec fn spec_to_raw(self) -> u32 {
        match self {
            UnsupportedFeatureCode::Intercept => 1,
            UnsupportedFeatureCode::TaskSwitchTss => 2,
        }
    }

    /// Encodes this feature code as its raw native value.
    pub fn to_raw(&self) -> (r: u32)
        ensures
            r == self.spec_to_raw(),
    {
        match self {
            UnsupportedFeatureCode::Intercept => 1,
            UnsupportedFeatureCode::TaskSwitchTss => 2,
        }
    }
}

/// The payload of an unsupported-feature exit.
#[derive(Debug, Clone, Copy, PartialEq, Eq)]
pub struct UnsupportedFeatureContext {
    pub feature_code: UnsupportedFeatureCode,
    pub feature_param: u64,
}

impl UnsupportedFeatureContext {
    /// The context at the start of the extension union `s`.
    pub open spec fn spec_from_bytes(s: Seq<u8>) -> Result<UnsupportedFeatureContext, Error> {
        match UnsupportedFeatureCode::spec_from_raw(spec_u32_from_le_bytes(s.subrange(0, 4))) {
            Ok(code) => Ok(
                UnsupportedFeatureContext {
                    feature_code: code,
                    feature_param: spec_u64_from_le_bytes(s.subrange(8, 16)),
                },
            ),
            Err(e) => Err(e),
        }
    }

    /// Reads the context from the extension union `buf`.
    pub fn read_from(buf: &[u8]) -> (r: Result<UnsupportedFeatureContext, Error>)
        requires
            buf@.len() >= 16,
        ensures
            r == UnsupportedFeatureContext::spec_from_bytes(buf@),
    {
        match UnsupportedFeatureCode::from_raw(read_u32(buf, 0)) {
            Ok(code) => Ok(
                UnsupportedFeatureContext { feature_code: code, feature_param: read_u64(buf, 8) },
            ),
            Err(e) => Err(e),
        }
    }
}

/// Why a run was cancelled from outside.
#[derive(Debug, Clone, Copy, PartialEq, Eq)]
pub enum VpCancelReason {
    User,
}

impl VpCancelReason {
    /// The cancel reason for a raw native value.
    pub open spec fn spec_from_raw(raw: u32) -> Result<VpCancelReason, Error> {
        if raw == 0 {
            Ok(VpCancelReason::User)
        } else {
            Err(Error::UnrecognizedDiscriminant(raw as u64))
        }
    }

    /// Decodes a raw native cancel reason.
    pub fn from_raw(raw: u32) -> (r: Result<VpCancelReason, Error>)
        ensures
            r == VpCancelReason::spec_from_raw(raw),
    {
        match raw {
            0 => Ok(VpCancelReason::User),
            _ => Err(Error::UnrecognizedDiscriminant(raw as u64)),
        }
    }

    /// The raw native value of this cancel reason.
    pub open spec fn spec_to_raw(self) -> u32 {
        match self {
            VpCancelReason::User => 0,
        }
    }

    /// Encodes this cancel reason as its raw native value.
    pub fn to_raw(&self) -> (r: u32)
        ensures
            r == self.spec_to_raw(),
    {
        match self {
            VpCancelReason::User => 0,
        }
    }
}

/// The payload of a cancelled run.
#[derive(Debug, Clone, Copy, PartialEq, Eq)]
pub struct VpCanceledContext {
    pub cancel_reason: VpCancelReason,
}

impl VpCanceledContext {
    /// The context at the start of the extension union `s`.
    pub open spec fn spec_from_bytes(s: Seq<u8>) -> Result<VpCanceledContext, Error> {
        match VpCancelReason::spec_from_raw(spec_u32_from_le_bytes(s.subrange(0, 4))) {
            Ok(reason) => Ok(VpCanceledContext { cancel_reason: reason }),
            Err(e) => Err(e),
        }
    }

    /// Reads the context from the extension union `buf`.
    pub fn read_from(buf: &[u8]) -> (r: Result<VpCanceledContext, Error>)
        requires
            buf@.len() >= 4,
        ensures
            r == VpCanceledContext::spec_from_bytes(buf@),
    {
        match VpCancelReason::from_raw(read_u32(buf, 0)) {
            Ok(reason) => Ok(VpCanceledContext { cancel_reason: reason }),
            Err(e) => Err(e),
        }
    }
}

/// The payload of an interrupt-controller end-of-interrupt exit.
#[derive(Debug, Clone, Copy, PartialEq, Eq)]
pub struct ApicEoiContext {
    pub interrupt_vec: u32,
}

impl ApicEoiContext {
    /// The context at the start of the extension union `s`.
    pub open spec fn spec_from_bytes(s: Seq<u8>) -> ApicEoiContext {
        ApicEoiContext { interrupt_vec: spec_u32_from_le_bytes(s.subrange(0, 4)) }
    }

    /// Reads the context from the extension union `buf`.
    pub fn read_from(buf: &[u8]) -> (r: ApicEoiContext)
        requires
            buf@.len() >= 4,
        ensures
            r == ApicEoiContext::spec_from_bytes(buf@),
    {
        ApicEoiContext { interrupt_vec: read_u32(buf, 0) }
    }
}

/// The payload of a timestamp-counter read exit.
#[derive(Debug, Clone, Copy, PartialEq, Eq)]
pub struct RdtscContext {
    pub tsc_aux: u64,
    pub virtual_offset: u64,
    pub tsc: u64,
    pub reference_time: u64,
    pub rdtsc_info: RdtscInfo,
}

impl RdtscContext {
    /// The context at the start of the extension union `s`.
    pub open spec fn spec_from_bytes(s: Seq<u8>) -> RdtscContext {
        RdtscContext {
            tsc_aux: spec_u64_from_le_bytes(s.subrange(0, 8)),
            virtual_offset: spec_u64_from_le_bytes(s.subrange(8, 16)),
            tsc: spec_u64_from_le_bytes(s.subrange(16, 24)),
            reference_time: spec_u64_from_le_bytes(s.subrange(24, 32)),
            rdtsc_info: RdtscInfo { bits: spec_u64_from_le_bytes(s.subrange(32, 40)) },
        }
    }

    /// Reads the context from the extension union `buf`.
    pub fn read_from(buf: &[u8]) -> (r: RdtscContext)
        requires
            buf@.len() >= 40,
        ensures
            r == RdtscContext::spec_from_bytes(buf@),
    {
        RdtscContext {
            tsc_aux: read_u64(buf, 0),
            virtual_offset: read_u64(buf, 8),
            tsc: read_u64(buf, 16),
            reference_time: read_u64(buf, 24),
            rdtsc_info: RdtscInfo::from_bits_retain(read_u64(buf, 32)),
        }
    }
}

/// The payload of a system-management-interrupt trap exit.
#[derive(Debug, Clone, Copy, PartialEq, Eq)]
pub struct ApicSmiContext {
    pub apic_icr: u64,
}

impl ApicSmiContext {
    /// The context at the start of the extension union `s`.
    pub open spec fn spec_from_bytes(s: Seq<u8>) -> ApicSmiContext {
        ApicSmiContext { apic_icr: spec_u64_from_le_bytes(s.subrange(0, 8)) }
    }

    /// Reads the context from the extension union `buf`.
    pub fn read_from(buf: &[u8]) -> (r: ApicSmiContext)
        requires
            buf@.len() >= 8,
        ensures
            r == ApicSmiContext::spec_from_bytes(buf@),
    {
        ApicSmiContext { apic_icr: read_u64(buf, 0) }
    }
}

/// The payload of a hypercall exit: the calling convention's registers.
#[derive(Debug, Clone, Copy, PartialEq, Eq)]
pub struct HypercallContext {
    pub rax: u64,
    pub rbx: u64,
    pub rcx: u64,
    pub rdx: u64,
    pub r8: u64,
    pub rsi: u64,
    pub rdi: u64,
    pub xmm_registers: [u128; 6],
}

impl HypercallContext {
    /// The context at the start of the extension union `s`: seven
    /// general-purpose registers, one reserved word, then six 128-bit
    /// media registers.
    pub open spec fn spec_from_bytes(s: Seq<u8>) -> HypercallContext {
        HypercallContext {
            rax: spec_u64_from_le_bytes(s.subrange(0, 8)),
            rbx: spec_u64_from_le_bytes(s.subrange(8, 16)),
            rcx: spec_u64_from_le_bytes(s.subrange(16, 24)),
            rdx: spec_u64_from_le_bytes(s.subrange(24, 32)),
            r8: spec_u64_from_le_bytes(s.subrange(32, 40)),
            rsi: spec_u64_from_le_bytes(s.subrange(40, 48)),
            rdi: spec_u64_from_le_bytes(s.subrange(48, 56)),
            xmm_registers: [
                spec_u128_from_le_bytes(s.subrange(64, 80)),
                spec_u128_from_le_bytes(s.subrange(80, 96)),
                spec_u128_from_le_bytes(s.subrange(96, 112)),
                spec_u128_from_le_bytes(s.subrange(112, 128)),
                spec_u128_from_le_bytes(s.subrange(128, 144)),
                spec_u128_from_le_bytes(s.subrange(144, 160)),
            ],
        }
    }

    /// Reads the context from the extension union `buf`.
    pub fn read_from(buf: &[u8]) -> (r: HypercallContext)
        requires
            buf@.len() >= 160,
        ensures
            r == HypercallContext::spec_from_bytes(buf@),
    {
        let r = HypercallContext {
            rax: read_u64(buf, 0),
            rbx: read_u64(buf, 8),
            rcx: read_u64(buf, 16),
            rdx: read_u64(buf, 24),
            r8: read_u64(buf, 32),
            rsi: read_u64(buf, 40),
            rdi: read_u64(buf, 48),
            xmm_registers: [
                read_u128(buf, 64),
                read_u128(buf, 80),
                read_u128(buf, 96),
                read_u128(buf, 112),
                read_u128(buf, 128),
                read_u128(buf, 144),
            ],
        };
        proof {
            assert(r.xmm_registers =~= HypercallContext::spec_from_bytes(buf@).xmm_registers);
        }
        r
    }
}

/// The kind of event whose delivery window opened.
#[derive(Debug, Clone, Copy, PartialEq, Eq)]
pub enum PendingInterruptionType {
    Interrupt,
    Nmi,
    Exception,
}

impl PendingInterruptionType {
    /// The interruption type for a raw native value.
    pub open spec fn spec_from_raw(raw: u32) -> Result<PendingInterruptionType, Error> {
        if raw == 0 {
            Ok(PendingInterruptionType::Interrupt)
        } else if raw == 2 {
            Ok(PendingInterruptionType::Nmi)
        } else if raw == 3 {
            Ok(PendingInterruptionType::Exception)
        } else {
            Err(Error::UnrecognizedDiscriminant(raw as u64))
        }
    }

    /// Decodes a raw native interruption type; a value outside the closed
    /// set is an out-of-sync native layer, never coerced.
    pub fn from_raw(raw: u32) -> (r: Result<PendingInterruptionType, Error>)
        ensures
            r == PendingInterruptionType::spec_from_raw(raw),
    {
        match raw {
            0 => Ok(PendingInterruptionType::Interrupt),
            2 => Ok(PendingInterruptionType::Nmi),
            3 => Ok(PendingInterruptionType::Exception),
            _ => Err(Error::UnrecognizedDiscriminant(raw as u64)),
        }
    }

    /// The raw native value of this interruption type.
    pub open spec fn spec_to_raw(self) -> u32 {
        match self {
            PendingInterruptionType::Interrupt => 0,
            PendingInterruptionType::Nmi => 2,
            PendingInterruptionType::Exception => 3,
        }
    }

    /// Encodes this interruption type as its raw native value.
    pub fn to_raw(&self) -> (r: u32)
        ensures
            r == self.spec_to_raw(),
    {
        match self {
            PendingInterruptionType::Interrupt => 0,
            PendingInterruptionType::Nmi => 2,
            PendingInterruptionType::Exception => 3,
        }
    }
}

/// The payload of an interrupt-window exit.
#[derive(Debug, Clone, Copy, PartialEq, Eq)]
pub struct InterruptionDeliverableContext {
    pub deliverable_type: PendingInterruptionType,
}

impl InterruptionDeliverableContext {
    /// The context at the start of the extension union `s`.
    pub open spec fn spec_from_bytes(s: Seq<u8>) -> Result<InterruptionDeliverableContext, Error> {
        match PendingInterruptionType::spec_from_raw(spec_u32_from_le_bytes(s.subrange(0, 4))) {
            Ok(t) => Ok(InterruptionDeliverableContext { deliverable_type: t }),
            Err(e) => Err(e),
        }
    }

    /// Reads the context from the extension union `buf`.
    pub fn read_from(buf: &[u8]) -> (r: Result<InterruptionDeliverableContext, Error>)
        requires
            buf@.len() >= 4,
        ensures
            r == InterruptionDeliverableContext::spec_from_bytes(buf@),
    {
        match PendingInterruptionType::from_raw(read_u32(buf, 0)) {
            Ok(t) => Ok(InterruptionDeliverableContext { deliverable_type: t }),
            Err(e) => Err(e),
        }
    }
}

/// The payload of an INIT/SIPI trap exit.
#[derive(Debug, Clone, Copy, PartialEq, Eq)]
pub struct X64ApicInitSipiContext {
    pub apic_icr: u64,
}

impl X64ApicInitSipiContext {
    /// The context at the start of the extension union `s`.
    pub open spec fn spec_from_bytes(s: Seq<u8>) -> X64ApicInitSipiContext {
        X64ApicInitSipiContext { apic_icr: spec_u64_from_le_bytes(s.subrange(0, 8)) }
    }

    /// Reads the context from the extension union `buf`.
    pub fn read_from(buf: &[u8]) -> (r: X64ApicInitSipiContext)
        requires
            buf@.len() >= 8,
        ensures
            r == X64ApicInitSipiContext::spec_from_bytes(buf@),
    {
        X64ApicInitSipiContext { apic_icr: read_u64(buf, 0) }
    }
}

/// The interrupt-controller register whose write trapped.
#[derive(Debug, Clone, Copy, PartialEq, Eq)]
pub enum ApicWriteType {
    Ldr,
    Dfr,
    Svr,
    Lint0,
    Lint1,
}

impl ApicWriteType {
    /// The write type for a raw native value.
    pub open spec fn spec_from_raw(raw: u32) -> Result<ApicWriteType, Error> {
        if raw == 0xD0 {
            Ok(ApicWriteType::Ldr)
        } else if raw == 0xE0 {
            Ok(ApicWriteType::Dfr)
        } else if raw == 0xF0 {
            Ok(ApicWriteType::Svr)
        } else if raw == 0x350 {
            Ok(ApicWriteType::Lint0)
        } else if raw == 0x360 {
            Ok(ApicWriteType::Lint1)
        } else {
            Err(Error::UnrecognizedDiscriminant(raw as u64))
        }
    }

    /// Decodes a raw native write type; a value outside the closed set is
    /// an out-of-sync native layer, never coerced.
    pub fn from_raw(raw: u32) -> (r: Result<ApicWriteType, Error>)
        ensures
            r == ApicWriteType::spec_from_raw(raw),
    {
        match raw {
            0xD0 => Ok(ApicWriteType::Ldr),
            0xE0 => Ok(ApicWriteType::Dfr),
            0xF0 => Ok(ApicWriteType::Svr),
            0x350 => Ok(ApicWriteType::Lint0),
            0x360 => Ok(ApicWriteType::Lint1),
            _ => Err(Error::UnrecognizedDiscriminant(raw as u64)),
        }
    }

    /// The raw native value of this write type.
    pub open spec fn spec_to_raw(self) -> u32 {
        match self {
            ApicWriteType::Ldr => 0xD0,
            ApicWriteType::Dfr => 0xE0,
            ApicWriteType::Svr => 0xF0,
            ApicWriteType::Lint0 => 0x350,
            ApicWriteType::Lint1 => 0x360,
        }
    }

    /// Encodes this write type as its raw native value.
    pub fn to_raw(&self) -> (r: u32)
        ensures
            r == self.spec_to_raw(),
    {
        match self {
            ApicWriteType::Ldr => 0xD0,
            ApicWriteType::Dfr => 0xE0,
            ApicWriteType::Svr => 0xF0,
            ApicWriteType::Lint0 => 0x350,
            ApicWriteType::Lint1 => 0x360,
        }
    }
}

/// The payload of an interrupt-controller register write trap.
#[derive(Debug, Clone, Copy, PartialEq, Eq)]
pub struct X64ApicWriteContext {
    pub ty: ApicWriteType,
    pub write_value: u64,
}

impl X64ApicWriteContext {
    /// The context at the start of the extension union `s`.
    pub open spec fn spec_from_bytes(s: Seq<u8>) -> Result<X64ApicWriteContext, Error> {
        match ApicWriteType::spec_from_raw(spec_u32_from_le_bytes(s.subrange(0, 4))) {
            Ok(t) => Ok(
                X64ApicWriteContext {
                    ty: t,
                    write_value: spec_u64_from_le_bytes(s.subrange(8, 16)),
                },
            ),
            Err(e) => Err(e),
        }
    }

    /// Reads the context from the extension union `buf`.
    pub fn read_from(buf: &[u8]) -> (r: Result<X64ApicWriteContext, Error>)
        requires
            buf@.len() >= 16,
        ensures
            r == X64ApicWriteContext::spec_from_bytes(buf@),
    {
        match ApicWriteType::from_raw(read_u32(buf, 0)) {
            Ok(t) => Ok(X64ApicWriteContext { ty: t, write_value: read_u64(buf, 8) }),
            Err(e) => Err(e),
        }
    }
}

/// The payload of a synthetic-interrupt deliverable exit.
#[derive(Debug, Clone, Copy, PartialEq, Eq)]
pub struct SynicSintDeliverableContext {
    pub deliverable_sints: u16,
}

impl SynicSintDeliverableContext {
    /// The context at the start of the extension union `s`.
    pub open spec fn spec_from_bytes(s: Seq<u8>) -> SynicSintDeliverableContext {
        SynicSintDeliverableContext {
            deliverable_sints: spec_u16_from_le_bytes(s.subrange(0, 2)),
        }
    }

    /// Reads the context from the extension union `buf`.
    pub fn read_from(buf: &[u8]) -> (r: SynicSintDeliverableContext)
        requires
            buf@.len() >= 2,
        ensures
            r == SynicSintDeliverableContext::spec_from_bytes(buf@),
    {
        SynicSintDeliverableContext { deliverable_sints: read_u16(buf, 0) }
    }
}

/// The extension payload of one exit, one variant per reason that
/// carries one.
#[derive(Debug, Clone, Copy, PartialEq, Eq)]
pub enum RunExitContextExt {
    MemoryAccess(MemoryAccessContext),
    IoPortAccess(IoPortAccessContext),
    MsrAccess(MsrAccessContext),
    CpuidAccess(CpuidAccessContext),
    VpException(VpExceptionContext),
    InterruptWindow(InterruptionDeliverableContext),
    UnsupportedFeature(UnsupportedFeatureContext),
    CancelReason(VpCanceledContext),
    ApicEoi(ApicEoiContext),
    ReadTsc(RdtscContext),
    ApicSmi(ApicSmiContext),
    Hypercall(HypercallContext),
    ApicInitSipi(X64ApicInitSipiContext),
    ApicWrite(X64ApicWriteContext),
    SynicSintDeliverable(SynicSintDeliverableContext),
}

impl RunExitContextExt {
    /// The reason-to-shape table: the one valid interpretation of the
    /// extension union for each exit reason, and `None` for the four
    /// reasons that carry no extension.
    pub open spec fn spec_from_union(exit_reason: RunExitReason, s: Seq<u8>) -> Result<
        Option<RunExitContextExt>,
        Error,
    >
        recommends
            s.len() == RUN_EXIT_EXTENSION_BYTES,
    {
        match exit_reason {
            RunExitReason::NoReason => Ok(None),
            RunExitReason::UnrecoverableException => Ok(None),
            RunExitReason::InvalidVpRegisterValue => Ok(None),
            RunExitReason::X64Halt => Ok(None),
            RunExitReason::MemoryAccess => Ok(
                Some(RunExitContextExt::MemoryAccess(MemoryAccessContext::spec_from_bytes(s))),
            ),
            RunExitReason::X64IoPortAccess => Ok(
                Some(RunExitContextExt::IoPortAccess(IoPortAccessContext::spec_from_bytes(s))),
            ),
            RunExitReason::UnsupportedFeature => match UnsupportedFeatureContext::spec_from_bytes(
                s,
            ) {
                Ok(c) => Ok(Some(RunExitContextExt::UnsupportedFeature(c))),
                Err(e) => Err(e),
            },
            RunExitReason::X64InterruptWindow => match InterruptionDeliverableContext::spec_from_bytes(
                s,
            ) {
                Ok(c) => Ok(Some(RunExitContextExt::InterruptWindow(c))),
                Err(e) => Err(e),
            },
            RunExitReason::X64ApicEoi => Ok(
                Some(RunExitContextExt::ApicEoi(ApicEoiContext::spec_from_bytes(s))),
            ),
            RunExitReason::SynicSintDeliverable => Ok(
                Some(
                    RunExitContextExt::SynicSintDeliverable(
                        SynicSintDeliverableContext::spec_from_bytes(s),
                    ),
                ),
            ),
            RunExitReason::X64MsrAccess => Ok(
                Some(RunExitContextExt::MsrAccess(MsrAccessContext::spec_from_bytes(s))),
            ),
            RunExitReason::X64Cpuid => Ok(
                Some(RunExitContextExt::CpuidAccess(CpuidAccessContext::spec_from_bytes(s))),
            ),
            RunExitReason::Exception => Ok(
                Some(RunExitContextExt::VpException(VpExceptionContext::spec_from_bytes(s))),
            ),
            RunExitReason::X64Rdtsc => Ok(
                Some(RunExitContextExt::ReadTsc(RdtscContext::spec_from_bytes(s))),
            ),
            RunExitReason::X64ApicSmiTrap => Ok(
                Some(RunExitContextExt::ApicSmi(ApicSmiContext::spec_from_bytes(s))),
            ),
            RunExitReason::Hypercall => Ok(
                Some(RunExitContextExt::Hypercall(HypercallContext::spec_from_bytes(s))),
            ),
            RunExitReason::X64ApicInitSipiTrap => Ok(
                Some(RunExitContextExt::ApicInitSipi(X64ApicInitSipiContext::spec_from_bytes(s))),
            ),
            RunExitReason::X64ApicWriteTrap => match X64ApicWriteContext::spec_from_bytes(s) {
                Ok(c) => Ok(Some(RunExitContextExt::ApicWrite(c))),
                Err(e) => Err(e),
            },
            RunExitReason::Canceled => match VpCanceledContext::spec_from_bytes(s) {
                Ok(c) => Ok(Some(RunExitContextExt::CancelReason(c))),
                Err(e) => Err(e),
            },
        }
    }

    /// Decodes the extension union for one exit, selecting the
    /// interpretation solely from the reason-to-shape table — never by
    /// inspecting the payload bytes.  Reasons that carry no extension
    /// yield `None`.
    pub fn from_union(exit_reason: RunExitReason, raw: &[u8]) -> (r: Result<
        Option<RunExitContextExt>,
        Error,
    >)
        requires
            raw@.len() == RUN_EXIT_EXTENSION_BYTES,
        ensures
            r == RunExitContextExt::spec_from_union(exit_reason, raw@),
    {
        match exit_reason {
            RunExitReason::NoReason => Ok(None),
            RunExitReason::UnrecoverableException => Ok(None),
            RunExitReason::InvalidVpRegisterValue => Ok(None),
            RunExitReason::X64Halt => Ok(None),
            RunExitReason::MemoryAccess => Ok(
                Some(RunExitContextExt::MemoryAccess(MemoryAccessContext::read_from(raw))),
            ),
            RunExitReason::X64IoPortAccess => Ok(
                Some(RunExitContextExt::IoPortAccess(IoPortAccessContext::read_from(raw))),
            ),
            RunExitReason::UnsupportedFeature => {
                match UnsupportedFeatureContext::read_from(raw) {
                    Ok(c) => Ok(Some(RunExitContextExt::UnsupportedFeature(c))),
                    Err(e) => Err(e),
                }
            },
            RunExitReason::X64InterruptWindow => {
                match InterruptionDeliverableContext::read_from(raw) {
                    Ok(c) => Ok(Some(RunExitContextExt::InterruptWindow(c))),
                    Err(e) => Err(e),
                }
            },
            RunExitReason::X64ApicEoi => Ok(
                Some(RunExitContextExt::ApicEoi(ApicEoiContext::read_from(raw))),
            ),
            RunExitReason::SynicSintDeliverable => Ok(
                Some(
                    RunExitContextExt::SynicSintDeliverable(
                        SynicSintDeliverableContext::read_from(raw),
                    ),
                ),
            ),
            RunExitReason::X64MsrAccess => Ok(
                Some(RunExitContextExt::MsrAccess(MsrAccessContext::read_from(raw))),
            ),
            RunExitReason::X64Cpuid => Ok(
                Some(RunExitContextExt::CpuidAccess(CpuidAccessContext::read_from(raw))),
            ),
            RunExitReason::Exception => Ok(
                Some(RunExitContextExt::VpException(VpExceptionContext::read_from(raw))),
            ),
            RunExitReason::X64Rdtsc => Ok(
                Some(RunExitContextExt::ReadTsc(RdtscContext::read_from(raw))),
            ),
            RunExitReason::X64ApicSmiTrap => Ok(
                Some(RunExitContextExt::ApicSmi(ApicSmiContext::read_from(raw))),
            ),
            RunExitReason::Hypercall => Ok(
                Some(RunExitContextExt::Hypercall(HypercallContext::read_from(raw))),
            ),
            RunExitReason::X64ApicInitSipiTrap => Ok(
                Some(RunExitContextExt::ApicInitSipi(X64ApicInitSipiContext::read_from(raw))),
            ),
            RunExitReason::X64ApicWriteTrap => {
                match X64ApicWriteContext::read_from(raw) {
                    Ok(c) => Ok(Some(RunExitContextExt::ApicWrite(c))),
                    Err(e) => Err(e),
                }
            },
            RunExitReason::Canceled => {
                match VpCanceledContext::read_from(raw) {
                    Ok(c) => Ok(Some(RunExitContextExt::CancelReason(c))),
                    Err(e) => Err(e),
                }
            },
        }
    }
}

/// One decoded run exit: the reason, the architectural context, and the
/// extension exactly when the reason carries one.
#[derive(Debug, Clone, Copy, PartialEq, Eq)]
pub struct RunExitContext {
    pub exit_reason: RunExitReason,
    pub context: ExitContext,
    pub ext: Option<RunExitContextExt>,
}

impl RunExitContext {
    /// The decoded form of one native run-exit output buffer: the reason
    /// at the head, the architectural context, and the extension union
    /// read with the reason's designated interpretation.
    pub open spec fn spec_from_union(s: Seq<u8>) -> Result<RunExitContext, Error>
        recommends
            s.len() == RUN_EXIT_CONTEXT_BYTES,
    {
        match RunExitReason::spec_from_raw(spec_u32_from_le_bytes(s.subrange(0, 4))) {
            Ok(reason) => match RunExitContextExt::spec_from_union(
                reason,
                s.subrange(
                    RUN_EXIT_EXTENSION_OFFSET as int,
                    RUN_EXIT_CONTEXT_BYTES as int,
                ),
            ) {
                Ok(ext) => Ok(
                    RunExitContext {
                        exit_reason: reason,
                        context: ExitContext::spec_from_bytes(s, 8),
                        ext,
                    },
                ),
                Err(e) => Err(e),
            },
            Err(e) => Err(e),
        }
    }

    /// Decodes one native run-exit output buffer.  An unrecognized exit
    /// reason, or an unrecognized discriminant inside the extension, is a
    /// fatal decoding error and no partial context is produced.
    pub fn from_union(raw: &Vec<u8>) -> (r: Result<RunExitContext, Error>)
        requires
            raw@.len() == RUN_EXIT_CONTEXT_BYTES,
        ensures
            r == RunExitContext::spec_from_union(raw@),
    {
        let s = raw.as_slice();
        match RunExitReason::from_raw(read_u32(s, 0)) {
            Ok(reason) => {
                let ext_bytes = vstd::slice::slice_subrange(
                    s,
                    RUN_EXIT_EXTENSION_OFFSET,
                    RUN_EXIT_CONTEXT_BYTES,
                );
                match RunExitContextExt::from_union(reason, ext_bytes) {
                    Ok(ext) => Ok(
                        RunExitContext {
                            exit_reason: reason,
                            context: ExitContext::read_from(s, 8),
                            ext,
                        },
                    ),
                    Err(e) => Err(e),
                }
            },
            Err(e) => Err(e),
        }
    }
}

/// Whether an exit reason is documented to carry an extension payload.
/// Four reasons carry none; every other reason carries exactly one shape.
pub open spec fn spec_reason_carries_extension(reason: RunExitReason) -> bool {
    match reason {
        RunExitReason::NoReason => false,
        RunExitReason::UnrecoverableException => false,
        RunExitReason::InvalidVpRegisterValue => false,
        RunExitReason::X64Halt => false,
        _ => true,
    }
}

/// Whether `ext` is the one extension shape designated for `reason`.
pub open spec fn spec_extension_matches(reason: RunExitReason, ext: RunExitContextExt) -> bool {
    match (reason, ext) {
        (RunExitReason::MemoryAccess, RunExitContextExt::MemoryAccess(_)) => true,
        (RunExitReason::X64IoPortAccess, RunExitContextExt::IoPortAccess(_)) => true,
        (RunExitReason::UnsupportedFeature, RunExitContextExt::UnsupportedFeature(_)) => true,
        (RunExitReason::X64InterruptWindow, RunExitContextExt::InterruptWindow(_)) => true,
        (RunExitReason::X64ApicEoi, RunExitContextExt::ApicEoi(_)) => true,
        (RunExitReason::SynicSintDeliverable, RunExitContextExt::SynicSintDeliverable(_)) => true,
        (RunExitReason::X64MsrAccess, RunExitContextExt::MsrAccess(_)) => true,
        (RunExitReason::X64Cpuid, RunExitContextExt::CpuidAccess(_)) => true,
        (RunExitReason::Exception, RunExitContextExt::VpException(_)) => true,
        (RunExitReason::X64Rdtsc, RunExitContextExt::ReadTsc(_)) => true,
        (RunExitReason::X64ApicSmiTrap, RunExitContextExt::ApicSmi(_)) => true,
        (RunExitReason::Hypercall, RunExitContextExt::Hypercall(_)) => true,
        (RunExitReason::X64ApicInitSipiTrap, RunExitContextExt::ApicInitSipi(_)) => true,
        (RunExitReason::X64ApicWriteTrap, RunExitContextExt::ApicWrite(_)) => true,
        (RunExitReason::Canceled, RunExitContextExt::CancelReason(_)) => true,
        _ => false,
    }
}

/// For every exit reason and every extension payload, a successfully
/// decoded extension is present exactly when the reason is documented to
/// carry one, and when present its variant is the one the reason
/// designates — no other pairing can be produced.
pub proof fn lemma_extension_matches_reason(reason: RunExitReason, s: Seq<u8>)
    ensures
        RunExitContextExt::spec_from_union(reason, s) matches Ok(ext) ==> ((ext is Some
            <==> spec_reason_carries_extension(reason)) && (ext matches Some(e)
            ==> spec_extension_matches(reason, e))),
{
}

/// The exhaustiveness law lifted to whole run exits: every successfully
/// decoded run-exit buffer pairs its reason with the designated extension
/// shape, and carries one exactly when the reason does.
pub proof fn lemma_exit_context_extension_matches(s: Seq<u8>)
    ensures
        RunExitContext::spec_from_union(s) matches Ok(ctx) ==> ((ctx.ext is Some
            <==> spec_reason_carries_extension(ctx.exit_reason)) && (ctx.ext matches Some(e)
            ==> spec_extension_matches(ctx.exit_reason, e))),
{
    if let Ok(reason) = RunExitReason::spec_from_raw(spec_u32_from_le_bytes(s.subrange(0, 4))) {
        lemma_extension_matches_reason(
            reason,
            s.subrange(RUN_EXIT_EXTENSION_OFFSET as int, RUN_EXIT_CONTEXT_BYTES as int),
        );
    }
}

/// One named architectural location of a virtual processor.
///
/// The set is closed: every register here classifies, through `ty`, to
/// exactly one value shape, and the pair `(to_raw, ty)` is everything the
/// register access layer needs to read or write it.
#[derive(Debug, Clone, Copy, PartialEq, Eq, Hash)]
pub enum Register {
    Rax,
    Rcx,
    Rdx,
    Rbx,
    Rsp,
    Rbp,
    Rsi,
    Rdi,
    R8,
    R9,
    R10,
    R11,
    R12,
    R13,
    R14,
    R15,
    Rip,
    Rflags,
    Es,
    Cs,
    Ss,
    Ds,
    Fs,
    Gs,
    Ldtr,
    Tr,
    Idtr,
    Gdtr,
    Cr0,
    Cr2,
    Cr3,
    Cr4,
    Cr8,
    Dr0,
    Dr1,
    Dr2,
    Dr3,
    Dr6,
    Dr7,
    XCr0,
    VirtualCr0,
    VirtualCr3,
    VirtualCr4,
    VirtualCr8,
    Xmm0,
    Xmm1,
    Xmm2,
    Xmm3,
    Xmm4,
    Xmm5,
    Xmm6,
    Xmm7,
    Xmm8,
    Xmm9,
    Xmm10,
    Xmm11,
    Xmm12,
    Xmm13,
    Xmm14,
    Xmm15,
    FpMmx0,
    FpMmx1,
    FpMmx2,
    FpMmx3,
    FpMmx4,
    FpMmx5,
    FpMmx6,
    FpMmx7,
    FpControlStatus,
    XmmControlStatus,
    Tsc,
    Efer,
    KernelGsBase,
    ApicBase,
    Pat,
    SysenterCs,
    SysenterEip,
    SysenterEsp,
    Star,
    Lstar,
    Cstar,
    Sfmask,
    InitialApicId,
    MsrMtrrCap,
    MsrMtrrDefType,
    MsrMtrrPhysBase0,
    MsrMtrrPhysBase1,
    MsrMtrrPhysBase2,
    MsrMtrrPhysBase3,
    MsrMtrrPhysBase4,
    MsrMtrrPhysBase5,
    MsrMtrrPhysBase6,
    MsrMtrrPhysBase7,
    MsrMtrrPhysBase8,
    MsrMtrrPhysBase9,
    MsrMtrrPhysBaseA,
    MsrMtrrPhysBaseB,
    MsrMtrrPhysBaseC,
    MsrMtrrPhysBaseD,
    MsrMtrrPhysBaseE,
    MsrMtrrPhysBaseF,
    MsrMtrrPhysMask0,
    MsrMtrrPhysMask1,
    MsrMtrrPhysMask2,
    MsrMtrrPhysMask3,
    MsrMtrrPhysMask4,
    MsrMtrrPhysMask5,
    MsrMtrrPhysMask6,
    MsrMtrrPhysMask7,
    MsrMtrrPhysMask8,
    MsrMtrrPhysMask9,
    MsrMtrrPhysMaskA,
    MsrMtrrPhysMaskB,
    MsrMtrrPhysMaskC,
    MsrMtrrPhysMaskD,
    MsrMtrrPhysMaskE,
    MsrMtrrPhysMaskF,
    MsrMtrrFix64k00000,
    MsrMtrrFix16k80000,
    MsrMtrrFix16kA0000,
    MsrMtrrFix4kC0000,
    MsrMtrrFix4kC8000,
    MsrMtrrFix4kD0000,
    MsrMtrrFix4kD8000,
    MsrMtrrFix4kE0000,
    MsrMtrrFix4kE8000,
    MsrMtrrFix4kF0000,
    MsrMtrrFix4kF8000,
    TscAux,
    Bndcfgs,
    MCount,
    ACount,
    SpecCtrl,
    PredCmd,
    TscVirtualOffset,
    TsxCtrl,
    Xss,
    UCet,
    SCet,
    Ssp,
    Pl0Ssp,
    Pl1Ssp,
    Pl2Ssp,
    Pl3Ssp,
    InterruptSspTableAddr,
    TscDeadline,
    TscAdjust,
    UmwaitControl,
    Xfd,
    XfdErr,
    ApicId,
    ApicVersion,
    ApicTpr,
    ApicPpr,
    ApicEoi,
    ApicLdr,
    ApicSpurious,
    ApicIsr0,
    ApicIsr1,
    ApicIsr2,
    ApicIsr3,
    ApicIsr4,
    ApicIsr5,
    ApicIsr6,
    ApicIsr7,
    ApicTmr0,
    ApicTmr1,
    ApicTmr2,
    ApicTmr3,
    ApicTmr4,
    ApicTmr5,
    ApicTmr6,
    ApicTmr7,
    ApicIrr0,
    ApicIrr1,
    ApicIrr2,
    ApicIrr3,
    ApicIrr4,
    ApicIrr5,
    ApicIrr6,
    ApicIrr7,
    ApicEse,
    ApicIcr,
    ApicLvtTimer,
    ApicLvtThermal,
    ApicLvtPerfmon,
    ApicLvtLint0,
    ApicLvtLint1,
    ApicLvtError,
    ApicInitCount,
    ApicCurrentCount,
    ApicDivide,
    ApicSelfIpi,
    Sint0,
    Sint1,
    Sint2,
    Sint3,
    Sint4,
    Sint5,
    Sint6,
    Sint7,
    Sint8,
    Sint9,
    Sint10,
    Sint11,
    Sint12,
    Sint13,
    Sint14,
    Sint15,
    Scontrol,
    Sversion,
    Siefp,
    Simp,
    Eom,
    VpRuntime,
    Hypercall,
    GuestOsId,
    VpAssistPage,
    ReferenceTsc,
    ReferenceTscSequence,
    PendingInterruption,
    InterruptState,
    PendingEvent,
    DeliverabilityNotifications,
    InternalActivityState,
    PendingDebugException,
}

/// The shape of one register value: which interpretation of the 16-byte
/// native value block is valid for a register.
#[derive(Debug, Clone, Copy, PartialEq, Eq, Hash, Structural)]
pub enum RegisterType {
    Reg128,
    Reg64,
    Reg32,
    Reg16,
    Reg8,
    Fp,
    FpControlStatus,
    XmmControlStatus,
    Segment,
    Table,
    InterruptState,
    PendingInterruption,
    DeliverabilityNotifications,
    ExceptionEvent,
    ExtIntEvent,
}

impl Register {
    /// The classification table: the one value shape of each register.
    ///
    /// The general-purpose, control, debug, model-specific, synthetic and
    /// interrupt-controller registers are 64-bit words; the media
    /// registers are 128-bit; the x87/MMX registers use the
    /// mantissa-and-exponent shape; segment and descriptor-table
    /// registers and the packed interrupt and event registers each use
    /// their own shape.  The pending-event register uses the exception
    /// event shape, the richer of the two pending-event layouts.
    pub open spec fn spec_ty(self) -> RegisterType {
        match self {
            Register::Rax | Register::Rcx | Register::Rdx | Register::Rbx | Register::Rsp
            | Register::Rbp | Register::Rsi | Register::Rdi | Register::R8 | Register::R9
            | Register::R10 | Register::R11 | Register::R12 | Register::R13 | Register::R14
            | Register::R15 | Register::Rip | Register::Rflags => RegisterType::Reg64,
            Register::Es | Register::Cs | Register::Ss | Register::Ds | Register::Fs | Register::Gs
            | Register::Ldtr | Register::Tr => RegisterType::Segment,
            Register::Idtr | Register::Gdtr => RegisterType::Table,
            Register::Cr0 | Register::Cr2 | Register::Cr3 | Register::Cr4 | Register::Cr8
            | Register::Dr0 | Register::Dr1 | Register::Dr2 | Register::Dr3 | Register::Dr6
            | Register::Dr7 | Register::XCr0 | Register::VirtualCr0 | Register::VirtualCr3
            | Register::VirtualCr4 | Register::VirtualCr8 => RegisterType::Reg64,
            Register::Xmm0 | Register::Xmm1 | Register::Xmm2 | Register::Xmm3 | Register::Xmm4
            | Register::Xmm5 | Register::Xmm6 | Register::Xmm7 | Register::Xmm8 | Register::Xmm9
            | Register::Xmm10 | Register::Xmm11 | Register::Xmm12 | Register::Xmm13 | Register::Xmm14
            | Register::Xmm15 => RegisterType::Reg128,
            Register::FpMmx0 | Register::FpMmx1 | Register::FpMmx2 | Register::FpMmx3
            | Register::FpMmx4 | Register::FpMmx5 | Register::FpMmx6 | Register::FpMmx7 => RegisterType::Fp,
            Register::FpControlStatus => RegisterType::FpControlStatus,
            Register::XmmControlStatus => RegisterType::XmmControlStatus,
            Register::Tsc | Register::Efer | Register::KernelGsBase | Register::ApicBase
            | Register::Pat | Register::SysenterCs | Register::SysenterEip | Register::SysenterEsp
            | Register::Star | Register::Lstar | Register::Cstar | Register::Sfmask
            | Register::InitialApicId | Register::MsrMtrrCap | Register::MsrMtrrDefType
            | Register::MsrMtrrPhysBase0 | Register::MsrMtrrPhysBase1 | Register::MsrMtrrPhysBase2
            | Register::MsrMtrrPhysBase3 | Register::MsrMtrrPhysBase4 | Register::MsrMtrrPhysBase5
            | Register::MsrMtrrPhysBase6 | Register::MsrMtrrPhysBase7 | Register::MsrMtrrPhysBase8
            | Register::MsrMtrrPhysBase9 | Register::MsrMtrrPhysBaseA | Register::MsrMtrrPhysBaseB
            | Register::MsrMtrrPhysBaseC | Register::MsrMtrrPhysBaseD | Register::MsrMtrrPhysBaseE
            | Register::MsrMtrrPhysBaseF | Register::MsrMtrrPhysMask0 | Register::MsrMtrrPhysMask1
            | Register::MsrMtrrPhysMask2 | Register::MsrMtrrPhysMask3 | Register::MsrMtrrPhysMask4
            | Register::MsrMtrrPhysMask5 | Register::MsrMtrrPhysMask6 | Register::MsrMtrrPhysMask7
            | Register::MsrMtrrPhysMask8 | Register::MsrMtrrPhysMask9 | Register::MsrMtrrPhysMaskA
            | Register::MsrMtrrPhysMaskB | Register::MsrMtrrPhysMaskC | Register::MsrMtrrPhysMaskD
            | Register::MsrMtrrPhysMaskE | Register::MsrMtrrPhysMaskF | Register::MsrMtrrFix64k00000
            | Register::MsrMtrrFix16k80000 | Register::MsrMtrrFix16kA0000
            | Register::MsrMtrrFix4kC0000 | Register::MsrMtrrFix4kC8000 | Register::MsrMtrrFix4kD0000
            | Register::MsrMtrrFix4kD8000 | Register::MsrMtrrFix4kE0000 | Register::MsrMtrrFix4kE8000
            | Register::MsrMtrrFix4kF0000 | Register::MsrMtrrFix4kF8000 | Register::TscAux
            | Register::Bndcfgs | Register::MCount | Register::ACount | Register::SpecCtrl
            | Register::PredCmd | Register::TscVirtualOffset | Register::TsxCtrl | Register::Xss
            | Register::UCet | Register::SCet | Register::Ssp | Register::Pl0Ssp | Register::Pl1Ssp
            | Register::Pl2Ssp | Register::Pl3Ssp | Register::InterruptSspTableAddr
            | Register::TscDeadline | Register::TscAdjust | Register::UmwaitControl | Register::Xfd
            | Register::XfdErr | Register::ApicId | Register::ApicVersion | Register::ApicTpr
            | Register::ApicPpr | Register::ApicEoi | Register::ApicLdr | Register::ApicSpurious
            | Register::ApicIsr0 | Register::ApicIsr1 | Register::ApicIsr2 | Register::ApicIsr3
            | Register::ApicIsr4 | Register::ApicIsr5 | Register::ApicIsr6 | Register::ApicIsr7
            | Register::ApicTmr0 | Register::ApicTmr1 | Register::ApicTmr2 | Register::ApicTmr3
            | Register::ApicTmr4 | Register::ApicTmr5 | Register::ApicTmr6 | Register::ApicTmr7
            | Register::ApicIrr0 | Register::ApicIrr1 | Register::ApicIrr2 | Register::ApicIrr3
            | Register::ApicIrr4 | Register::ApicIrr5 | Register::ApicIrr6 | Register::ApicIrr7
            | Register::ApicEse | Register::ApicIcr | Register::ApicLvtTimer
            | Register::ApicLvtThermal | Register::ApicLvtPerfmon | Register::ApicLvtLint0
            | Register::ApicLvtLint1 | Register::ApicLvtError | Register::ApicInitCount
            | Register::ApicCurrentCount | Register::ApicDivide | Register::ApicSelfIpi
            | Register::Sint0 | Register::Sint1 | Register::Sint2 | Register::Sint3 | Register::Sint4
            | Register::Sint5 | Register::Sint6 | Register::Sint7 | Register::Sint8 | Register::Sint9
            | Register::Sint10 | Register::Sint11 | Register::Sint12 | Register::Sint13
            | Register::Sint14 | Register::Sint15 | Register::Scontrol | Register::Sversion
            | Register::Siefp | Register::Simp | Register::Eom | Register::VpRuntime
            | Register::Hypercall | Register::GuestOsId | Register::VpAssistPage
            | Register::ReferenceTsc | Register::ReferenceTscSequence => RegisterType::Reg64,
            Register::PendingInterruption => RegisterType::PendingInterruption,
            Register::InterruptState => RegisterType::InterruptState,
            Register::PendingEvent => RegisterType::ExceptionEvent,
            Register::DeliverabilityNotifications => RegisterType::DeliverabilityNotifications,
            Register::InternalActivityState | Register::PendingDebugException => RegisterType::Reg64,
        }
    }

    /// The one value shape of this register.  Reading a register must
    /// decode the raw value with this shape — the payload does not
    /// identify itself.
    pub fn ty(&self) -> (t: RegisterType)
        ensures
            t == self.spec_ty(),
    {
        match self {
            Register::Rax | Register::Rcx | Register::Rdx | Register::Rbx | Register::Rsp
            | Register::Rbp | Register::Rsi | Register::Rdi | Register::R8 | Register::R9
            | Register::R10 | Register::R11 | Register::R12 | Register::R13 | Register::R14
            | Register::R15 | Register::Rip | Register::Rflags => RegisterType::Reg64,
            Register::Es | Register::Cs | Register::Ss | Register::Ds | Register::Fs | Register::Gs
            | Register::Ldtr | Register::Tr => RegisterType::Segment,
            Register::Idtr | Register::Gdtr => RegisterType::Table,
            Register::Cr0 | Register::Cr2 | Register::Cr3 | Register::Cr4 | Register::Cr8
            | Register::Dr0 | Register::Dr1 | Register::Dr2 | Register::Dr3 | Register::Dr6
            | Register::Dr7 | Register::XCr0 | Register::VirtualCr0 | Register::VirtualCr3
            | Register::VirtualCr4 | Register::VirtualCr8 => RegisterType::Reg64,
            Register::Xmm0 | Register::Xmm1 | Register::Xmm2 | Register::Xmm3 | Register::Xmm4
            | Register::Xmm5 | Register::Xmm6 | Register::Xmm7 | Register::Xmm8 | Register::Xmm9
            | Register::Xmm10 | Register::Xmm11 | Register::Xmm12 | Register::Xmm13 | Register::Xmm14
            | Register::Xmm15 => RegisterType::Reg128,
            Register::FpMmx0 | Register::FpMmx1 | Register::FpMmx2 | Register::FpMmx3
            | Register::FpMmx4 | Register::FpMmx5 | Register::FpMmx6 | Register::FpMmx7 => RegisterType::Fp,
            Register::FpControlStatus => RegisterType::FpControlStatus,
            Register::XmmControlStatus => RegisterType::XmmControlStatus,
            Register::Tsc | Register::Efer | Register::KernelGsBase | Register::ApicBase
            | Register::Pat | Register::SysenterCs | Register::SysenterEip | Register::SysenterEsp
            | Register::Star | Register::Lstar | Register::Cstar | Register::Sfmask
            | Register::InitialApicId | Register::MsrMtrrCap | Register::MsrMtrrDefType
            | Register::MsrMtrrPhysBase0 | Register::MsrMtrrPhysBase1 | Register::MsrMtrrPhysBase2
            | Register::MsrMtrrPhysBase3 | Register::MsrMtrrPhysBase4 | Register::MsrMtrrPhysBase5
            | Register::MsrMtrrPhysBase6 | Register::MsrMtrrPhysBase7 | Register::MsrMtrrPhysBase8
            | Register::MsrMtrrPhysBase9 | Register::MsrMtrrPhysBaseA | Register::MsrMtrrPhysBaseB
            | Register::MsrMtrrPhysBaseC | Register::MsrMtrrPhysBaseD | Register::MsrMtrrPhysBaseE
            | Register::MsrMtrrPhysBaseF | Register::MsrMtrrPhysMask0 | Register::MsrMtrrPhysMask1
            | Register::MsrMtrrPhysMask2 | Register::MsrMtrrPhysMask3 | Register::MsrMtrrPhysMask4
            | Register::MsrMtrrPhysMask5 | Register::MsrMtrrPhysMask6 | Register::MsrMtrrPhysMask7
            | Register::MsrMtrrPhysMask8 | Register::MsrMtrrPhysMask9 | Register::MsrMtrrPhysMaskA
            | Register::MsrMtrrPhysMaskB | Register::MsrMtrrPhysMaskC | Register::MsrMtrrPhysMaskD
            | Register::MsrMtrrPhysMaskE | Register::MsrMtrrPhysMaskF | Register::MsrMtrrFix64k00000
            | Register::MsrMtrrFix16k80000 | Register::MsrMtrrFix16kA0000
            | Register::MsrMtrrFix4kC0000 | Register::MsrMtrrFix4kC8000 | Register::MsrMtrrFix4kD0000
            | Register::MsrMtrrFix4kD8000 | Register::MsrMtrrFix4kE0000 | Register::MsrMtrrFix4kE8000
            | Register::MsrMtrrFix4kF0000 | Register::MsrMtrrFix4kF8000 | Register::TscAux
            | Register::Bndcfgs | Register::MCount | Register::ACount | Register::SpecCtrl
            | Register::PredCmd | Register::TscVirtualOffset | Register::TsxCtrl | Register::Xss
            | Register::UCet | Register::SCet | Register::Ssp | Register::Pl0Ssp | Register::Pl1Ssp
            | Register::Pl2Ssp | Register::Pl3Ssp | Register::InterruptSspTableAddr
            | Register::TscDeadline | Register::TscAdjust | Register::UmwaitControl | Register::Xfd
            | Register::XfdErr | Register::ApicId | Register::ApicVersion | Register::ApicTpr
            | Register::ApicPpr | Register::ApicEoi | Register::ApicLdr | Register::ApicSpurious
            | Register::ApicIsr0 | Register::ApicIsr1 | Register::ApicIsr2 | Register::ApicIsr3
            | Register::ApicIsr4 | Register::ApicIsr5 | Register::ApicIsr6 | Register::ApicIsr7
            | Register::ApicTmr0 | Register::ApicTmr1 | Register::ApicTmr2 | Register::ApicTmr3
            | Register::ApicTmr4 | Register::ApicTmr5 | Register::ApicTmr6 | Register::ApicTmr7
            | Register::ApicIrr0 | Register::ApicIrr1 | Register::ApicIrr2 | Register::ApicIrr3
            | Register::ApicIrr4 | Register::ApicIrr5 | Register::ApicIrr6 | Register::ApicIrr7
            | Register::ApicEse | Register::ApicIcr | Register::ApicLvtTimer
            | Register::ApicLvtThermal | Register::ApicLvtPerfmon | Register::ApicLvtLint0
            | Register::ApicLvtLint1 | Register::ApicLvtError | Register::ApicInitCount
            | Register::ApicCurrentCount | Register::ApicDivide | Register::ApicSelfIpi
            | Register::Sint0 | Register::Sint1 | Register::Sint2 | Register::Sint3 | Register::Sint4
            | Register::Sint5 | Register::Sint6 | Register::Sint7 | Register::Sint8 | Register::Sint9
            | Register::Sint10 | Register::Sint11 | Register::Sint12 | Register::Sint13
            | Register::Sint14 | Register::Sint15 | Register::Scontrol | Register::Sversion
            | Register::Siefp | Register::Simp | Register::Eom | Register::VpRuntime
            | Register::Hypercall | Register::GuestOsId | Register::VpAssistPage
            | Register::ReferenceTsc | Register::ReferenceTscSequence => RegisterType::Reg64,
            Register::PendingInterruption => RegisterType::PendingInterruption,
            Register::InterruptState => RegisterType::InterruptState,
            Register::PendingEvent => RegisterType::ExceptionEvent,
            Register::DeliverabilityNotifications => RegisterType::DeliverabilityNotifications,
            Register::InternalActivityState | Register::PendingDebugException => RegisterType::Reg64,
        }
    }

    /// The raw native name of this register.
    pub open spec fn spec_to_raw(self) -> u32 {
        match self {
            Register::Rax => 0x00000000,
            Register::Rcx => 0x00000001,
            Register::Rdx => 0x00000002,
            Register::Rbx => 0x00000003,
            Register::Rsp => 0x00000004,
            Register::Rbp => 0x00000005,
            Register::Rsi => 0x00000006,
            Register::Rdi => 0x00000007,
            Register::R8 => 0x00000008,
            Register::R9 => 0x00000009,
            Register::R10 => 0x0000000A,
            Register::R11 => 0x0000000B,
            Register::R12 => 0x0000000C,
            Register::R13 => 0x0000000D,
            Register::R14 => 0x0000000E,
            Register::R15 => 0x0000000F,
            Register::Rip => 0x00000010,
            Register::Rflags => 0x00000011,
            Register::Es => 0x00000012,
            Register::Cs => 0x00000013,
            Register::Ss => 0x00000014,
            Register::Ds => 0x00000015,
            Register::Fs => 0x00000016,
            Register::Gs => 0x00000017,
            Register::Ldtr => 0x00000018,
            Register::Tr => 0x00000019,
            Register::Idtr => 0x0000001A,
            Register::Gdtr => 0x0000001B,
            Register::Cr0 => 0x0000001C,
            Register::Cr2 => 0x0000001D,
            Register::Cr3 => 0x0000001E,
            Register::Cr4 => 0x0000001F,
            Register::Cr8 => 0x00000020,
            Register::Dr0 => 0x00000021,
            Register::Dr1 => 0x00000022,
            Register::Dr2 => 0x00000023,
            Register::Dr3 => 0x00000024,
            Register::Dr6 => 0x00000025,
            Register::Dr7 => 0x00000026,
            Register::XCr0 => 0x00000027,
            Register::VirtualCr0 => 0x00000028,
            Register::VirtualCr3 => 0x00000029,
            Register::VirtualCr4 => 0x0000002A,
            Register::VirtualCr8 => 0x0000002B,
            Register::Xmm0 => 0x00001000,
            Register::Xmm1 => 0x00001001,
            Register::Xmm2 => 0x00001002,
            Register::Xmm3 => 0x00001003,
            Register::Xmm4 => 0x00001004,
            Register::Xmm5 => 0x00001005,
            Register::Xmm6 => 0x00001006,
            Register::Xmm7 => 0x00001007,
            Register::Xmm8 => 0x00001008,
            Register::Xmm9 => 0x00001009,
            Register::Xmm10 => 0x0000100A,
            Register::Xmm11 => 0x0000100B,
            Register::Xmm12 => 0x0000100C,
            Register::Xmm13 => 0x0000100D,
            Register::Xmm14 => 0x0000100E,
            Register::Xmm15 => 0x0000100F,
            Register::FpMmx0 => 0x00001010,
            Register::FpMmx1 => 0x00001011,
            Register::FpMmx2 => 0x00001012,
            Register::FpMmx3 => 0x00001013,
            Register::FpMmx4 => 0x00001014,
            Register::FpMmx5 => 0x00001015,
            Register::FpMmx6 => 0x00001016,
            Register::FpMmx7 => 0x00001017,
            Register::FpControlStatus => 0x00001018,
            Register::XmmControlStatus => 0x00001019,
            Register::Tsc => 0x00002000,
            Register::Efer => 0x00002001,
            Register::KernelGsBase => 0x00002002,
            Register::ApicBase => 0x00002003,
            Register::Pat => 0x00002004,
            Register::SysenterCs => 0x00002005,
            Register::SysenterEip => 0x00002006,
            Register::SysenterEsp => 0x00002007,
            Register::Star => 0x00002008,
            Register::Lstar => 0x00002009,
            Register::Cstar => 0x0000200A,
            Register::Sfmask => 0x0000200B,
            Register::InitialApicId => 0x0000200C,
            Register::MsrMtrrCap => 0x0000200D,
            Register::MsrMtrrDefType => 0x0000200E,
            Register::MsrMtrrPhysBase0 => 0x00002010,
            Register::MsrMtrrPhysBase1 => 0x00002011,
            Register::MsrMtrrPhysBase2 => 0x00002012,
            Register::MsrMtrrPhysBase3 => 0x00002013,
            Register::MsrMtrrPhysBase4 => 0x00002014,
            Register::MsrMtrrPhysBase5 => 0x00002015,
            Register::MsrMtrrPhysBase6 => 0x00002016,
            Register::MsrMtrrPhysBase7 => 0x00002017,
            Register::MsrMtrrPhysBase8 => 0x00002018,
            Register::MsrMtrrPhysBase9 => 0x00002019,
            Register::MsrMtrrPhysBaseA => 0x0000201A,
            Register::MsrMtrrPhysBaseB => 0x0000201B,
            Register::MsrMtrrPhysBaseC => 0x0000201C,
            Register::MsrMtrrPhysBaseD => 0x0000201D,
            Register::MsrMtrrPhysBaseE => 0x0000201E,
            Register::MsrMtrrPhysBaseF => 0x0000201F,
            Register::MsrMtrrPhysMask0 => 0x00002040,
            Register::MsrMtrrPhysMask1 => 0x00002041,
            Register::MsrMtrrPhysMask2 => 0x00002042,
            Register::MsrMtrrPhysMask3 => 0x00002043,
            Register::MsrMtrrPhysMask4 => 0x00002044,
            Register::MsrMtrrPhysMask5 => 0x00002045,
            Register::MsrMtrrPhysMask6 => 0x00002046,
            Register::MsrMtrrPhysMask7 => 0x00002047,
            Register::MsrMtrrPhysMask8 => 0x00002048,
            Register::MsrMtrrPhysMask9 => 0x00002049,
            Register::MsrMtrrPhysMaskA => 0x0000204A,
            Register::MsrMtrrPhysMaskB => 0x0000204B,
            Register::MsrMtrrPhysMaskC => 0x0000204C,
            Register::MsrMtrrPhysMaskD => 0x0000204D,
            Register::MsrMtrrPhysMaskE => 0x0000204E,
            Register::MsrMtrrPhysMaskF => 0x0000204F,
            Register::MsrMtrrFix64k00000 => 0x00002070,
            Register::MsrMtrrFix16k80000 => 0x00002071,
            Register::MsrMtrrFix16kA0000 => 0x00002072,
            Register::MsrMtrrFix4kC0000 => 0x00002073,
            Register::MsrMtrrFix4kC8000 => 0x00002074,
            Register::MsrMtrrFix4kD0000 => 0x00002075,
            Register::MsrMtrrFix4kD8000 => 0x00002076,
            Register::MsrMtrrFix4kE0000 => 0x00002077,
            Register::MsrMtrrFix4kE8000 => 0x00002078,
            Register::MsrMtrrFix4kF0000 => 0x00002079,
            Register::MsrMtrrFix4kF8000 => 0x0000207A,
            Register::TscAux => 0x0000207B,
            Register::Bndcfgs => 0x0000207C,
            Register::MCount => 0x0000207E,
            Register::ACount => 0x0000207F,
            Register::SpecCtrl => 0x00002084,
            Register::PredCmd => 0x00002085,
            Register::TscVirtualOffset => 0x00002087,
            Register::TsxCtrl => 0x00002088,
            Register::Xss => 0x0000208B,
            Register::UCet => 0x0000208C,
            Register::SCet => 0x0000208D,
            Register::Ssp => 0x0000208E,
            Register::Pl0Ssp => 0x0000208F,
            Register::Pl1Ssp => 0x00002090,
            Register::Pl2Ssp => 0x00002091,
            Register::Pl3Ssp => 0x00002092,
            Register::InterruptSspTableAddr => 0x00002093,
            Register::TscDeadline => 0x00002095,
            Register::TscAdjust => 0x00002096,
            Register::UmwaitControl => 0x00002098,
            Register::Xfd => 0x00002099,
            Register::XfdErr => 0x0000209A,
            Register::ApicId => 0x00003002,
            Register::ApicVersion => 0x00003003,
            Register::ApicTpr => 0x00003008,
            Register::ApicPpr => 0x0000300A,
            Register::ApicEoi => 0x0000300B,
            Register::ApicLdr => 0x0000300D,
            Register::ApicSpurious => 0x0000300F,
            Register::ApicIsr0 => 0x00003010,
            Register::ApicIsr1 => 0x00003011,
            Register::ApicIsr2 => 0x00003012,
            Register::ApicIsr3 => 0x00003013,
            Register::ApicIsr4 => 0x00003014,
            Register::ApicIsr5 => 0x00003015,
            Register::ApicIsr6 => 0x00003016,
            Register::ApicIsr7 => 0x00003017,
            Register::ApicTmr0 => 0x00003018,
            Register::ApicTmr1 => 0x00003019,
            Register::ApicTmr2 => 0x0000301A,
            Register::ApicTmr3 => 0x0000301B,
            Register::ApicTmr4 => 0x0000301C,
            Register::ApicTmr5 => 0x0000301D,
            Register::ApicTmr6 => 0x0000301E,
            Register::ApicTmr7 => 0x0000301F,
            Register::ApicIrr0 => 0x00003020,
            Register::ApicIrr1 => 0x00003021,
            Register::ApicIrr2 => 0x00003022,
            Register::ApicIrr3 => 0x00003023,
            Register::ApicIrr4 => 0x00003024,
            Register::ApicIrr5 => 0x00003025,
            Register::ApicIrr6 => 0x00003026,
            Register::ApicIrr7 => 0x00003027,
            Register::ApicEse => 0x00003028,
            Register::ApicIcr => 0x00003030,
            Register::ApicLvtTimer => 0x00003032,
            Register::ApicLvtThermal => 0x00003033,
            Register::ApicLvtPerfmon => 0x00003034,
            Register::ApicLvtLint0 => 0x00003035,
            Register::ApicLvtLint1 => 0x00003036,
            Register::ApicLvtError => 0x00003037,
            Register::ApicInitCount => 0x00003038,
            Register::ApicCurrentCount => 0x00003039,
            Register::ApicDivide => 0x0000303E,
            Register::ApicSelfIpi => 0x0000303F,
            Register::Sint0 => 0x00004000,
            Register::Sint1 => 0x00004001,
            Register::Sint2 => 0x00004002,
            Register::Sint3 => 0x00004003,
            Register::Sint4 => 0x00004004,
            Register::Sint5 => 0x00004005,
            Register::Sint6 => 0x00004006,
            Register::Sint7 => 0x00004007,
            Register::Sint8 => 0x00004008,
            Register::Sint9 => 0x00004009,
            Register::Sint10 => 0x0000400A,
            Register::Sint11 => 0x0000400B,
            Register::Sint12 => 0x0000400C,
            Register::Sint13 => 0x0000400D,
            Register::Sint14 => 0x0000400E,
            Register::Sint15 => 0x0000400F,
            Register::Scontrol => 0x00004010,
            Register::Sversion => 0x00004011,
            Register::Siefp => 0x00004012,
            Register::Simp => 0x00004013,
            Register::Eom => 0x00004014,
            Register::VpRuntime => 0x00005000,
            Register::Hypercall => 0x00005001,
            Register::GuestOsId => 0x00005002,
            Register::VpAssistPage => 0x00005013,
            Register::ReferenceTsc => 0x00005017,
            Register::ReferenceTscSequence => 0x0000501A,
            Register::PendingInterruption => 0x80000000,
            Register::InterruptState => 0x80000001,
            Register::PendingEvent => 0x80000002,
            Register::DeliverabilityNotifications => 0x80000004,
            Register::InternalActivityState => 0x80000005,
            Register::PendingDebugException => 0x80000006,
        }
    }

    /// Encodes this register as its raw native name.
    pub fn to_raw(&self) -> (r: u32)
        ensures
            r == self.spec_to_raw(),
    {
        match self {
            Register::Rax => 0x00000000,
            Register::Rcx => 0x00000001,
            Register::Rdx => 0x00000002,
            Register::Rbx => 0x00000003,
            Register::Rsp => 0x00000004,
            Register::Rbp => 0x00000005,
            Register::Rsi => 0x00000006,
            Register::Rdi => 0x00000007,
            Register::R8 => 0x00000008,
            Register::R9 => 0x00000009,
            Register::R10 => 0x0000000A,
            Register::R11 => 0x0000000B,
            Register::R12 => 0x0000000C,
            Register::R13 => 0x0000000D,
            Register::R14 => 0x0000000E,
            Register::R15 => 0x0000000F,
            Register::Rip => 0x00000010,
            Register::Rflags => 0x00000011,
            Register::Es => 0x00000012,
            Register::Cs => 0x00000013,
            Register::Ss => 0x00000014,
            Register::Ds => 0x00000015,
            Register::Fs => 0x00000016,
            Register::Gs => 0x00000017,
            Register::Ldtr => 0x00000018,
            Register::Tr => 0x00000019,
            Register::Idtr => 0x0000001A,
            Register::Gdtr => 0x0000001B,
            Register::Cr0 => 0x0000001C,
            Register::Cr2 => 0x0000001D,
            Register::Cr3 => 0x0000001E,
            Register::Cr4 => 0x0000001F,
            Register::Cr8 => 0x00000020,
            Register::Dr0 => 0x00000021,
            Register::Dr1 => 0x00000022,
            Register::Dr2 => 0x00000023,
            Register::Dr3 => 0x00000024,
            Register::Dr6 => 0x00000025,
            Register::Dr7 => 0x00000026,
            Register::XCr0 => 0x00000027,
            Register::VirtualCr0 => 0x00000028,
            Register::VirtualCr3 => 0x00000029,
            Register::VirtualCr4 => 0x0000002A,
            Register::VirtualCr8 => 0x0000002B,
            Register::Xmm0 => 0x00001000,
            Register::Xmm1 => 0x00001001,
            Register::Xmm2 => 0x00001002,
            Register::Xmm3 => 0x00001003,
            Register::Xmm4 => 0x00001004,
            Register::Xmm5 => 0x00001005,
            Register::Xmm6 => 0x00001006,
            Register::Xmm7 => 0x00001007,
            Register::Xmm8 => 0x00001008,
            Register::Xmm9 => 0x00001009,
            Register::Xmm10 => 0x0000100A,
            Register::Xmm11 => 0x0000100B,
            Register::Xmm12 => 0x0000100C,
            Register::Xmm13 => 0x0000100D,
            Register::Xmm14 => 0x0000100E,
            Register::Xmm15 => 0x0000100F,
            Register::FpMmx0 => 0x00001010,
            Register::FpMmx1 => 0x00001011,
            Register::FpMmx2 => 0x00001012,
            Register::FpMmx3 => 0x00001013,
            Register::FpMmx4 => 0x00001014,
            Register::FpMmx5 => 0x00001015,
            Register::FpMmx6 => 0x00001016,
            Register::FpMmx7 => 0x00001017,
            Register::FpControlStatus => 0x00001018,
            Register::XmmControlStatus => 0x00001019,
            Register::Tsc => 0x00002000,
            Register::Efer => 0x00002001,
            Register::KernelGsBase => 0x00002002,
            Register::ApicBase => 0x00002003,
            Register::Pat => 0x00002004,
            Register::SysenterCs => 0x00002005,
            Register::SysenterEip => 0x00002006,
            Register::SysenterEsp => 0x00002007,
            Register::Star => 0x00002008,
            Register::Lstar => 0x00002009,
            Register::Cstar => 0x0000200A,
            Register::Sfmask => 0x0000200B,
            Register::InitialApicId => 0x0000200C,
            Register::MsrMtrrCap => 0x0000200D,
            Register::MsrMtrrDefType => 0x0000200E,
            Register::MsrMtrrPhysBase0 => 0x00002010,
            Register::MsrMtrrPhysBase1 => 0x00002011,
            Register::MsrMtrrPhysBase2 => 0x00002012,
            Register::MsrMtrrPhysBase3 => 0x00002013,
            Register::MsrMtrrPhysBase4 => 0x00002014,
            Register::MsrMtrrPhysBase5 => 0x00002015,
            Register::MsrMtrrPhysBase6 => 0x00002016,
            Register::MsrMtrrPhysBase7 => 0x00002017,
            Register::MsrMtrrPhysBase8 => 0x00002018,
            Register::MsrMtrrPhysBase9 => 0x00002019,
            Register::MsrMtrrPhysBaseA => 0x0000201A,
            Register::MsrMtrrPhysBaseB => 0x0000201B,
            Register::MsrMtrrPhysBaseC => 0x0000201C,
            Register::MsrMtrrPhysBaseD => 0x0000201D,
            Register::MsrMtrrPhysBaseE => 0x0000201E,
            Register::MsrMtrrPhysBaseF => 0x0000201F,
            Register::MsrMtrrPhysMask0 => 0x00002040,
            Register::MsrMtrrPhysMask1 => 0x00002041,
            Register::MsrMtrrPhysMask2 => 0x00002042,
            Register::MsrMtrrPhysMask3 => 0x00002043,
            Register::MsrMtrrPhysMask4 => 0x00002044,
            Register::MsrMtrrPhysMask5 => 0x00002045,
            Register::MsrMtrrPhysMask6 => 0x00002046,
            Register::MsrMtrrPhysMask7 => 0x00002047,
            Register::MsrMtrrPhysMask8 => 0x00002048,
            Register::MsrMtrrPhysMask9 => 0x00002049,
            Register::MsrMtrrPhysMaskA => 0x0000204A,
            Register::MsrMtrrPhysMaskB => 0x0000204B,
            Register::MsrMtrrPhysMaskC => 0x0000204C,
            Register::MsrMtrrPhysMaskD => 0x0000204D,
            Register::MsrMtrrPhysMaskE => 0x0000204E,
            Register::MsrMtrrPhysMaskF => 0x0000204F,
            Register::MsrMtrrFix64k00000 => 0x00002070,
            Register::MsrMtrrFix16k80000 => 0x00002071,
            Register::MsrMtrrFix16kA0000 => 0x00002072,
            Register::MsrMtrrFix4kC0000 => 0x00002073,
            Register::MsrMtrrFix4kC8000 => 0x00002074,
            Register::MsrMtrrFix4kD0000 => 0x00002075,
            Register::MsrMtrrFix4kD8000 => 0x00002076,
            Register::MsrMtrrFix4kE0000 => 0x00002077,
            Register::MsrMtrrFix4kE8000 => 0x00002078,
            Register::MsrMtrrFix4kF0000 => 0x00002079,
            Register::MsrMtrrFix4kF8000 => 0x0000207A,
            Register::TscAux => 0x0000207B,
            Register::Bndcfgs => 0x0000207C,
            Register::MCount => 0x0000207E,
            Register::ACount => 0x0000207F,
            Register::SpecCtrl => 0x00002084,
            Register::PredCmd => 0x00002085,
            Register::TscVirtualOffset => 0x00002087,
            Register::TsxCtrl => 0x00002088,
            Register::Xss => 0x0000208B,
            Register::UCet => 0x0000208C,
            Register::SCet => 0x0000208D,
            Register::Ssp => 0x0000208E,
            Register::Pl0Ssp => 0x0000208F,
            Register::Pl1Ssp => 0x00002090,
            Register::Pl2Ssp => 0x00002091,
            Register::Pl3Ssp => 0x00002092,
            Register::InterruptSspTableAddr => 0x00002093,
            Register::TscDeadline => 0x00002095,
            Register::TscAdjust => 0x00002096,
            Register::UmwaitControl => 0x00002098,
            Register::Xfd => 0x00002099,
            Register::XfdErr => 0x0000209A,
            Register::ApicId => 0x00003002,
            Register::ApicVersion => 0x00003003,
            Register::ApicTpr => 0x00003008,
            Register::ApicPpr => 0x0000300A,
            Register::ApicEoi => 0x0000300B,
            Register::ApicLdr => 0x0000300D,
            Register::ApicSpurious => 0x0000300F,
            Register::ApicIsr0 => 0x00003010,
            Register::ApicIsr1 => 0x00003011,
            Register::ApicIsr2 => 0x00003012,
            Register::ApicIsr3 => 0x00003013,
            Register::ApicIsr4 => 0x00003014,
            Register::ApicIsr5 => 0x00003015,
            Register::ApicIsr6 => 0x00003016,
            Register::ApicIsr7 => 0x00003017,
            Register::ApicTmr0 => 0x00003018,
            Register::ApicTmr1 => 0x00003019,
            Register::ApicTmr2 => 0x0000301A,
            Register::ApicTmr3 => 0x0000301B,
            Register::ApicTmr4 => 0x0000301C,
            Register::ApicTmr5 => 0x0000301D,
            Register::ApicTmr6 => 0x0000301E,
            Register::ApicTmr7 => 0x0000301F,
            Register::ApicIrr0 => 0x00003020,
            Register::ApicIrr1 => 0x00003021,
            Register::ApicIrr2 => 0x00003022,
            Register::ApicIrr3 => 0x00003023,
            Register::ApicIrr4 => 0x00003024,
            Register::ApicIrr5 => 0x00003025,
            Register::ApicIrr6 => 0x00003026,
            Register::ApicIrr7 => 0x00003027,
            Register::ApicEse => 0x00003028,
            Register::ApicIcr => 0x00003030,
            Register::ApicLvtTimer => 0x00003032,
            Register::ApicLvtThermal => 0x00003033,
            Register::ApicLvtPerfmon => 0x00003034,
            Register::ApicLvtLint0 => 0x00003035,
            Register::ApicLvtLint1 => 0x00003036,
            Register::ApicLvtError => 0x00003037,
            Register::ApicInitCount => 0x00003038,
            Register::ApicCurrentCount => 0x00003039,
            Register::ApicDivide => 0x0000303E,
            Register::ApicSelfIpi => 0x0000303F,
            Register::Sint0 => 0x00004000,
            Register::Sint1 => 0x00004001,
            Register::Sint2 => 0x00004002,
            Register::Sint3 => 0x00004003,
            Register::Sint4 => 0x00004004,
            Register::Sint5 => 0x00004005,
            Register::Sint6 => 0x00004006,
            Register::Sint7 => 0x00004007,
            Register::Sint8 => 0x00004008,
            Register::Sint9 => 0x00004009,
            Register::Sint10 => 0x0000400A,
            Register::Sint11 => 0x0000400B,
            Register::Sint12 => 0x0000400C,
            Register::Sint13 => 0x0000400D,
            Register::Sint14 => 0x0000400E,
            Register::Sint15 => 0x0000400F,
            Register::Scontrol => 0x00004010,
            Register::Sversion => 0x00004011,
            Register::Siefp => 0x00004012,
            Register::Simp => 0x00004013,
            Register::Eom => 0x00004014,
            Register::VpRuntime => 0x00005000,
            Register::Hypercall => 0x00005001,
            Register::GuestOsId => 0x00005002,
            Register::VpAssistPage => 0x00005013,
            Register::ReferenceTsc => 0x00005017,
            Register::ReferenceTscSequence => 0x0000501A,
            Register::PendingInterruption => 0x80000000,
            Register::InterruptState => 0x80000001,
            Register::PendingEvent => 0x80000002,
            Register::DeliverabilityNotifications => 0x80000004,
            Register::InternalActivityState => 0x80000005,
            Register::PendingDebugException => 0x80000006,
        }
    }
}

/// One typed register value, a closed set of variants mirroring
/// `RegisterType` one to one.
#[derive(Debug, Clone, Copy, PartialEq, Eq)]
pub enum RegisterVal {
    Reg128(u128),
    Reg64(u64),
    Reg32(u32),
    Reg16(u16),
    Reg8(u8),
    Fp(FpRegister),
    FpControlStatus(X64FpControlStatusRegister),
    XmmControlStatus(X64XmmControlStatusRegister),
    Segment(SegmentRegister),
    Table(TableRegister),
    InterruptState(InterruptStateRegister),
    PendingInterruption(PendingInterruptionRegister),
    DeliverabilityNotifications(DeliverabilityNotificationsRegister),
    ExceptionEvent(PendingExceptionEvent),
    ExtIntEvent(PendingExtIntEvent),
}

impl RegisterVal {
    /// The shape of this value.
    pub open spec fn spec_ty(self) -> RegisterType {
        match self {
            RegisterVal::Reg128(_) => RegisterType::Reg128,
            RegisterVal::Reg64(_) => RegisterType::Reg64,
            RegisterVal::Reg32(_) => RegisterType::Reg32,
            RegisterVal::Reg16(_) => RegisterType::Reg16,
            RegisterVal::Reg8(_) => RegisterType::Reg8,
            RegisterVal::Fp(_) => RegisterType::Fp,
            RegisterVal::FpControlStatus(_) => RegisterType::FpControlStatus,
            RegisterVal::XmmControlStatus(_) => RegisterType::XmmControlStatus,
            RegisterVal::Segment(_) => RegisterType::Segment,
            RegisterVal::Table(_) => RegisterType::Table,
            RegisterVal::InterruptState(_) => RegisterType::InterruptState,
            RegisterVal::PendingInterruption(_) => RegisterType::PendingInterruption,
            RegisterVal::DeliverabilityNotifications(_) => RegisterType::DeliverabilityNotifications,
            RegisterVal::ExceptionEvent(_) => RegisterType::ExceptionEvent,
            RegisterVal::ExtIntEvent(_) => RegisterType::ExtIntEvent,
        }
    }

    /// The shape of this value.
    pub fn ty(&self) -> (t: RegisterType)
        ensures
            t == self.spec_ty(),
    {
        match self {
            RegisterVal::Reg128(_) => RegisterType::Reg128,
            RegisterVal::Reg64(_) => RegisterType::Reg64,
            RegisterVal::Reg32(_) => RegisterType::Reg32,
            RegisterVal::Reg16(_) => RegisterType::Reg16,
            RegisterVal::Reg8(_) => RegisterType::Reg8,
            RegisterVal::Fp(_) => RegisterType::Fp,
            RegisterVal::FpControlStatus(_) => RegisterType::FpControlStatus,
            RegisterVal::XmmControlStatus(_) => RegisterType::XmmControlStatus,
            RegisterVal::Segment(_) => RegisterType::Segment,
            RegisterVal::Table(_) => RegisterType::Table,
            RegisterVal::InterruptState(_) => RegisterType::InterruptState,
            RegisterVal::PendingInterruption(_) => RegisterType::PendingInterruption,
            RegisterVal::DeliverabilityNotifications(_) => RegisterType::DeliverabilityNotifications,
            RegisterVal::ExceptionEvent(_) => RegisterType::ExceptionEvent,
            RegisterVal::ExtIntEvent(_) => RegisterType::ExtIntEvent,
        }
    }

    /// The 16-byte wire image of this value: the payload of its shape at
    /// offset 0, then zero padding.
    pub open spec fn spec_to_union(self) -> Seq<u8> {
        match self {
            RegisterVal::Reg128(v) => spec_u128_to_le_bytes(v),
            RegisterVal::Reg64(v) => spec_u64_to_le_bytes(v) + zeros(8),
            RegisterVal::Reg32(v) => spec_u32_to_le_bytes(v) + zeros(12),
            RegisterVal::Reg16(v) => spec_u16_to_le_bytes(v) + zeros(14),
            RegisterVal::Reg8(v) => seq![v] + zeros(15),
            RegisterVal::Fp(f) => spec_u64_to_le_bytes(f.mantissa) + spec_u64_to_le_bytes(f.bits),
            RegisterVal::FpControlStatus(c) => c.spec_to_bytes(),
            RegisterVal::XmmControlStatus(c) => c.spec_to_bytes(),
            RegisterVal::Segment(sg) => sg.spec_to_bytes(),
            RegisterVal::Table(t) => t.spec_to_bytes(),
            RegisterVal::InterruptState(r) => spec_u64_to_le_bytes(r.bits) + zeros(8),
            RegisterVal::PendingInterruption(r) => spec_u64_to_le_bytes(r.bits) + zeros(8),
            RegisterVal::DeliverabilityNotifications(r) => spec_u64_to_le_bytes(r.bits) + zeros(8),
            RegisterVal::ExceptionEvent(e) => spec_u32_to_le_bytes(e.bits) + spec_u32_to_le_bytes(
                e.error_code,
            ) + spec_u64_to_le_bytes(e.exception_param),
            RegisterVal::ExtIntEvent(e) => spec_u64_to_le_bytes(e.bits) + zeros(8),
        }
    }

    /// Encodes this value as the 16-byte payload of the native register
    /// value block.  The value's own shape determines the wire image; no
    /// register name is consulted.
    pub fn to_union(&self) -> (r: Vec<u8>)
        ensures
            r@ == self.spec_to_union(),
            r@.len() == REGISTER_VALUE_BYTES,
    {
        proof {
            lemma_le_round_trips();
        }
        let mut out: Vec<u8> = Vec::new();
        match self {
            RegisterVal::Reg128(v) => {
                push_u128(&mut out, *v);
            },
            RegisterVal::Reg64(v) => {
                push_u64(&mut out, *v);
                push_zeros(&mut out, 8);
            },
            RegisterVal::Reg32(v) => {
                push_u32(&mut out, *v);
                push_zeros(&mut out, 12);
            },
            RegisterVal::Reg16(v) => {
                push_u16(&mut out, *v);
                push_zeros(&mut out, 14);
            },
            RegisterVal::Reg8(v) => {
                push_u8(&mut out, *v);
                push_zeros(&mut out, 15);
            },
            RegisterVal::Fp(f) => {
                push_u64(&mut out, f.mantissa);
                push_u64(&mut out, f.bits);
            },
            RegisterVal::FpControlStatus(c) => {
                c.push_onto(&mut out);
            },
            RegisterVal::XmmControlStatus(c) => {
                c.push_onto(&mut out);
            },
            RegisterVal::Segment(sg) => {
                sg.push_onto(&mut out);
            },
            RegisterVal::Table(t) => {
                t.push_onto(&mut out);
            },
            RegisterVal::InterruptState(r) => {
                push_u64(&mut out, r.bits);
                push_zeros(&mut out, 8);
            },
            RegisterVal::PendingInterruption(r) => {
                push_u64(&mut out, r.bits);
                push_zeros(&mut out, 8);
            },
            RegisterVal::DeliverabilityNotifications(r) => {
                push_u64(&mut out, r.bits);
                push_zeros(&mut out, 8);
            },
            RegisterVal::ExceptionEvent(e) => {
                push_u32(&mut out, e.bits);
                push_u32(&mut out, e.error_code);
                push_u64(&mut out, e.exception_param);
            },
            RegisterVal::ExtIntEvent(e) => {
                push_u64(&mut out, e.bits);
                push_zeros(&mut out, 8);
            },
        }
        proof {
            assert(out@ =~= self.spec_to_union());
        }
        out
    }

    /// The one valid interpretation of a raw register value block for
    /// each value shape.
    pub open spec fn spec_from_union(ty: RegisterType, s: Seq<u8>) -> RegisterVal
        recommends
            s.len() == REGISTER_VALUE_BYTES,
    {
        match ty {
            RegisterType::Reg128 => RegisterVal::Reg128(spec_u128_from_le_bytes(s.subrange(0, 16))),
            RegisterType::Reg64 => RegisterVal::Reg64(spec_u64_from_le_bytes(s.subrange(0, 8))),
            RegisterType::Reg32 => RegisterVal::Reg32(spec_u32_from_le_bytes(s.subrange(0, 4))),
            RegisterType::Reg16 => RegisterVal::Reg16(spec_u16_from_le_bytes(s.subrange(0, 2))),
            RegisterType::Reg8 => RegisterVal::Reg8(s[0]),
            RegisterType::Fp => RegisterVal::Fp(
                FpRegister {
                    mantissa: spec_u64_from_le_bytes(s.subrange(0, 8)),
                    bits: spec_u64_from_le_bytes(s.subrange(8, 16)),
                },
            ),
            RegisterType::FpControlStatus => RegisterVal::FpControlStatus(
                X64FpControlStatusRegister::spec_from_bytes(s, 0),
            ),
            RegisterType::XmmControlStatus => RegisterVal::XmmControlStatus(
                X64XmmControlStatusRegister::spec_from_bytes(s, 0),
            ),
            RegisterType::Segment => RegisterVal::Segment(SegmentRegister::spec_from_bytes(s, 0)),
            RegisterType::Table => RegisterVal::Table(TableRegister::spec_from_bytes(s, 0)),
            RegisterType::InterruptState => RegisterVal::InterruptState(
                InterruptStateRegister { bits: spec_u64_from_le_bytes(s.subrange(0, 8)) },
            ),
            RegisterType::PendingInterruption => RegisterVal::PendingInterruption(
                PendingInterruptionRegister { bits: spec_u64_from_le_bytes(s.subrange(0, 8)) },
            ),
            RegisterType::DeliverabilityNotifications => RegisterVal::DeliverabilityNotifications(
                DeliverabilityNotificationsRegister {
                    bits: spec_u64_from_le_bytes(s.subrange(0, 8)),
                },
            ),
            RegisterType::ExceptionEvent => RegisterVal::ExceptionEvent(
                PendingExceptionEvent {
                    bits: spec_u32_from_le_bytes(s.subrange(0, 4)),
                    error_code: spec_u32_from_le_bytes(s.subrange(4, 8)),
                    exception_param: spec_u64_from_le_bytes(s.subrange(8, 16)),
                },
            ),
            RegisterType::ExtIntEvent => RegisterVal::ExtIntEvent(
                PendingExtIntEvent { bits: spec_u64_from_le_bytes(s.subrange(0, 8)) },
            ),
        }
    }

    /// Decodes a raw register value block, reading the bytes with the
    /// interpretation `ty` selects — the payload does not identify its
    /// own type, so the caller must pass the owning register's type.
    pub fn from_union(ty: RegisterType, raw: &[u8]) -> (r: RegisterVal)
        requires
            raw@.len() == REGISTER_VALUE_BYTES,
        ensures
            r == RegisterVal::spec_from_union(ty, raw@),
    {
        match ty {
            RegisterType::Reg128 => RegisterVal::Reg128(read_u128(raw, 0)),
            RegisterType::Reg64 => RegisterVal::Reg64(read_u64(raw, 0)),
            RegisterType::Reg32 => RegisterVal::Reg32(read_u32(raw, 0)),
            RegisterType::Reg16 => RegisterVal::Reg16(read_u16(raw, 0)),
            RegisterType::Reg8 => RegisterVal::Reg8(read_u8(raw, 0)),
            RegisterType::Fp => RegisterVal::Fp(
                FpRegister { mantissa: read_u64(raw, 0), bits: read_u64(raw, 8) },
            ),
            RegisterType::FpControlStatus => RegisterVal::FpControlStatus(
                X64FpControlStatusRegister::read_from(raw, 0),
            ),
            RegisterType::XmmControlStatus => RegisterVal::XmmControlStatus(
                X64XmmControlStatusRegister::read_from(raw, 0),
            ),
            RegisterType::Segment => RegisterVal::Segment(SegmentRegister::read_from(raw, 0)),
            RegisterType::Table => RegisterVal::Table(TableRegister::read_from(raw, 0)),
            RegisterType::InterruptState => RegisterVal::InterruptState(
                InterruptStateRegister::from_bits_retain(read_u64(raw, 0)),
            ),
            RegisterType::PendingInterruption => RegisterVal::PendingInterruption(
                PendingInterruptionRegister { bits: read_u64(raw, 0) },
            ),
            RegisterType::DeliverabilityNotifications => RegisterVal::DeliverabilityNotifications(
                DeliverabilityNotificationsRegister { bits: read_u64(raw, 0) },
            ),
            RegisterType::ExceptionEvent => RegisterVal::ExceptionEvent(
                PendingExceptionEvent {
                    bits: read_u32(raw, 0),
                    error_code: read_u32(raw, 4),
                    exception_param: read_u64(raw, 8),
                },
            ),
            RegisterType::ExtIntEvent => RegisterVal::ExtIntEvent(
                PendingExtIntEvent { bits: read_u64(raw, 0) },
            ),
        }
    }
}

/// Decoding a raw value block with shape `ty` always yields a value of
/// exactly that shape: for every register, reading with `register.ty()`
/// can only produce the matching `RegisterVal` variant.
pub proof fn lemma_register_decode_fidelity(register: Register, s: Seq<u8>)
    ensures
        RegisterVal::spec_from_union(register.spec_ty(), s).spec_ty() == register.spec_ty(),
{
}

/// Encoding a register value and decoding the bytes with the value's own
/// shape reconstructs the value exactly: the register codec is invertible
/// for every shape.
pub proof fn lemma_register_value_round_trip(v: RegisterVal)
    ensures
        RegisterVal::spec_from_union(v.spec_ty(), v.spec_to_union()) == v,
{
    lemma_le_round_trips();
    let s = v.spec_to_union();
    match v {
        RegisterVal::Reg128(x) => {
            assert(s.subrange(0, 16) =~= spec_u128_to_le_bytes(x));
        },
        RegisterVal::Reg64(x) => {
            assert(s.subrange(0, 8) =~= spec_u64_to_le_bytes(x));
        },
        RegisterVal::Reg32(x) => {
            assert(s.subrange(0, 4) =~= spec_u32_to_le_bytes(x));
        },
        RegisterVal::Reg16(x) => {
            assert(s.subrange(0, 2) =~= spec_u16_to_le_bytes(x));
        },
        RegisterVal::Reg8(x) => {
            assert(s[0] == x);
        },
        RegisterVal::Fp(f) => {
            assert(s.subrange(0, 8) =~= spec_u64_to_le_bytes(f.mantissa));
            assert(s.subrange(8, 16) =~= spec_u64_to_le_bytes(f.bits));
        },
        RegisterVal::FpControlStatus(c) => {
            assert(s.subrange(0, 2) =~= spec_u16_to_le_bytes(c.control));
            assert(s.subrange(2, 4) =~= spec_u16_to_le_bytes(c.status));
            assert(s[4] == c.tag);
            assert(s.subrange(6, 8) =~= spec_u16_to_le_bytes(c.last_op));
            assert(s.subrange(8, 16) =~= spec_u64_to_le_bytes(c.last_rip));
        },
        RegisterVal::XmmControlStatus(c) => {
            assert(s.subrange(0, 8) =~= spec_u64_to_le_bytes(c.last_rdp));
            assert(s.subrange(8, 12) =~= spec_u32_to_le_bytes(c.status_control));
            assert(s.subrange(12, 16) =~= spec_u32_to_le_bytes(c.status_control_mask));
        },
        RegisterVal::Segment(sg) => {
            assert(s.subrange(0, 8) =~= spec_u64_to_le_bytes(sg.base));
            assert(s.subrange(8, 12) =~= spec_u32_to_le_bytes(sg.limit));
            assert(s.subrange(12, 14) =~= spec_u16_to_le_bytes(sg.selector));
            assert(s.subrange(14, 16) =~= spec_u16_to_le_bytes(sg.attributes.bits));
            assert(SegmentRegister::spec_from_bytes(s, 0)
                == SegmentRegister {
                base: sg.base,
                limit: sg.limit,
                selector: sg.selector,
                attributes: X64SegmentRegisterAttributes { bits: sg.attributes.bits },
            });
        },
        RegisterVal::Table(t) => {
            assert(s.subrange(0, 2) =~= spec_u16_to_le_bytes(t.pad[0]));
            assert(s.subrange(2, 4) =~= spec_u16_to_le_bytes(t.pad[1]));
            assert(s.subrange(4, 6) =~= spec_u16_to_le_bytes(t.pad[2]));
            assert(s.subrange(6, 8) =~= spec_u16_to_le_bytes(t.limit));
            assert(s.subrange(8, 16) =~= spec_u64_to_le_bytes(t.base));
            assert(TableRegister::spec_from_bytes(s, 0).pad =~= t.pad);
        },
        RegisterVal::InterruptState(r) => {
            assert(s.subrange(0, 8) =~= spec_u64_to_le_bytes(r.bits));
        },
        RegisterVal::PendingInterruption(r) => {
            assert(s.subrange(0, 8) =~= spec_u64_to_le_bytes(r.bits));
        },
        RegisterVal::DeliverabilityNotifications(r) => {
            assert(s.subrange(0, 8) =~= spec_u64_to_le_bytes(r.bits));
        },
        RegisterVal::ExceptionEvent(e) => {
            assert(s.subrange(0, 4) =~= spec_u32_to_le_bytes(e.bits));
            assert(s.subrange(4, 8) =~= spec_u32_to_le_bytes(e.error_code));
            assert(s.subrange(8, 16) =~= spec_u64_to_le_bytes(e.exception_param));
        },
        RegisterVal::ExtIntEvent(e) => {
            assert(s.subrange(0, 8) =~= spec_u64_to_le_bytes(e.bits));
        },
    }
}

/// Encodes a batch of register names for one native bulk access: each
/// register's raw native name, in the callers' order.
pub fn encode_register_names(registers: &Vec<Register>) -> (r: Vec<u32>)
    ensures
        r@.len() == registers@.len(),
        forall|i: int| 0 <= i < registers@.len() ==> r@[i] == registers@[i].spec_to_raw(),
{
    let n = registers.len();
    let mut out: Vec<u32> = Vec::new();
    let mut idx: usize = 0;
    while idx < n
        invariant
            idx <= n,
            n == registers@.len(),
            out@.len() == idx,
            forall|i: int| 0 <= i < idx ==> out@[i] == registers@[i].spec_to_raw(),
        decreases n - idx,
    {
        out.push(registers[idx].to_raw());
        idx = idx + 1;
    }
    out
}

/// Encodes a batch of register writes for one native bulk set call: the
/// raw names and the concatenated 16-byte value blocks, in order.  A
/// register paired with a value of another register's shape is rejected
/// before any native call — the native layer would silently reinterpret
/// the mismatched bytes.
pub fn encode_register_writes(register_vals: &Vec<(Register, RegisterVal)>) -> (r: Result<
    (Vec<u32>, Vec<u8>),
    Error,
>)
    ensures
        r is Ok <==> (forall|i: int|
            0 <= i < register_vals@.len() ==> (#[trigger] register_vals@[i]).1.spec_ty()
                == register_vals@[i].0.spec_ty()),
        r matches Ok(enc) ==> {
            &&& enc.0@.len() == register_vals@.len()
            &&& enc.1@.len() == REGISTER_VALUE_BYTES * register_vals@.len()
            &&& forall|i: int|
                0 <= i < register_vals@.len() ==> enc.0@[i] == (
                #[trigger] register_vals@[i]).0.spec_to_raw()
            &&& forall|i: int|
                0 <= i < register_vals@.len() ==> enc.1@.subrange(16 * i, 16 * i + 16) == (
                #[trigger] register_vals@[i]).1.spec_to_union()
        },
        r matches Err(e) ==> exists|i: int|
            0 <= i < register_vals@.len() && (#[trigger] register_vals@[i]).1.spec_ty()
                != register_vals@[i].0.spec_ty() && e == Error::MismatchedRegisterValue(
                register_vals@[i].0,
            ),
{
    let n = register_vals.len();
    let mut names: Vec<u32> = Vec::new();
    let mut values: Vec<u8> = Vec::new();
    let mut idx: usize = 0;
    while idx < n
        invariant
            idx <= n,
            n == register_vals@.len(),
            names@.len() == idx,
            values@.len() == 16 * idx,
            forall|i: int|
                0 <= i < idx ==> names@[i] == (#[trigger] register_vals@[i]).0.spec_to_raw(),
            forall|i: int|
                0 <= i < idx ==> values@.subrange(16 * i, 16 * i + 16) == (
                #[trigger] register_vals@[i]).1.spec_to_union(),
            forall|i: int|
                0 <= i < idx ==> (#[trigger] register_vals@[i]).1.spec_ty()
                    == register_vals@[i].0.spec_ty(),
        decreases n - idx,
    {
        let (register, value) = register_vals[idx];
        if !(value.ty() == register.ty()) {
            return Err(Error::MismatchedRegisterValue(register));
        }
        let ghost old_values = values@;
        names.push(register.to_raw());
        let mut block = value.to_union();
        values.append(&mut block);
        proof {
            assert forall|i: int| 0 <= i < idx + 1 implies values@.subrange(16 * i, 16 * i + 16)
                == (#[trigger] register_vals@[i]).1.spec_to_union() by {
                if i < idx {
                    assert(values@.subrange(16 * i, 16 * i + 16) =~= old_values.subrange(
                        16 * i,
                        16 * i + 16,
                    ));
                } else {
                    assert(values@.subrange(16 * i, 16 * i + 16) =~= register_vals@[
                        i].1.spec_to_union());
                }
            }
        }
        idx = idx + 1;
    }
    Ok((names, values))
}

/// Decodes the value blocks a native bulk read produced for `registers`:
/// each block is read with the type its register classifies to, and the
/// results keep the callers' order.
pub fn decode_register_values(registers: &Vec<Register>, raw: &Vec<u8>) -> (r: Vec<
    (Register, RegisterVal),
>)
    requires
        raw@.len() == REGISTER_VALUE_BYTES * registers@.len(),
    ensures
        r@.len() == registers@.len(),
        forall|i: int|
            0 <= i < registers@.len() ==> (#[trigger] r@[i]).0 == registers@[i] && r@[i].1
                == RegisterVal::spec_from_union(
                registers@[i].spec_ty(),
                raw@.subrange(16 * i, 16 * i + 16),
            ),
{
    let n = registers.len();
    let total = raw.len();
    let mut out: Vec<(Register, RegisterVal)> = Vec::new();
    let mut idx: usize = 0;
    while idx < n
        invariant
            idx <= n,
            n == registers@.len(),
            raw@.len() == 16 * n,
            total == raw@.len(),
            out@.len() == idx,
            forall|i: int|
                0 <= i < idx ==> (#[trigger] out@[i]).0 == registers@[i] && out@[i].1
                    == RegisterVal::spec_from_union(
                    registers@[i].spec_ty(),
                    raw@.subrange(16 * i, 16 * i + 16),
                ),
        decreases n - idx,
    {
        let register = registers[idx];
        proof {
            assert(16 * idx + 16 <= total);
        }
        let block = vstd::slice::slice_subrange(raw.as_slice(), 16 * idx, 16 * idx + 16);
        let value = RegisterVal::from_union(register.ty(), block);
        out.push((register, value));
        idx = idx + 1;
    }
    out
}

} // verus!
