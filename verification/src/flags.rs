//! Bit-set value types.
//!
//! Each type here wraps the raw bit pattern of one native flag word or
//! packed bit field.  The wrapper converts losslessly to and from the raw
//! representation; named bit positions are the business of the native
//! platform's headers and are not re-declared here.

use vstd::prelude::*;

verus! {

/// Optional platform capabilities reported by the hypervisor-features capability.
#[derive(Debug, Clone, Copy, PartialEq, Eq)]
pub struct CapabilityFeatures {
    pub bits: u64,
}

impl CapabilityFeatures {
    /// Wraps a raw bit pattern unchanged, including unknown bits.
    pub fn from_bits_retain(bits: u64) -> (r: Self)
        ensures
            r.bits == bits,
    {
        CapabilityFeatures { bits }
    }

    /// The empty bit set.
    pub fn empty() -> (r: Self)
        ensures
            r.bits == 0,
    {
        CapabilityFeatures { bits: 0 }
    }

    /// The raw bit pattern.
    pub fn bits(&self) -> (r: u64)
        ensures
            r == self.bits,
    {
        self.bits
    }

    /// True when every bit set in `other` is also set in `self`.
    pub fn contains(&self, other: Self) -> (r: bool)
        ensures
            r == (self.bits & other.bits == other.bits),
    {
        self.bits & other.bits == other.bits
    }

    /// The union of the two bit sets.
    pub fn union(self, other: Self) -> (r: Self)
        ensures
            r.bits == self.bits | other.bits,
    {
        CapabilityFeatures { bits: self.bits | other.bits }
    }
}

/// Access and tracking flags for one mapped guest-physical range.
#[derive(Debug, Clone, Copy, PartialEq, Eq)]
pub struct MapGpaRangeFlags {
    pub bits: i32,
}

impl MapGpaRangeFlags {
    /// Wraps a raw bit pattern unchanged, including unknown bits.
    pub fn from_bits_retain(bits: i32) -> (r: Self)
        ensures
            r.bits == bits,
    {
        MapGpaRangeFlags { bits }
    }

    /// The empty bit set.
    pub fn empty() -> (r: Self)
        ensures
            r.bits == 0,
    {
        MapGpaRangeFlags { bits: 0 }
    }

    /// The raw bit pattern.
    pub fn bits(&self) -> (r: i32)
        ensures
            r == self.bits,
    {
        self.bits
    }

    /// True when every bit set in `other` is also set in `self`.
    pub fn contains(&self, other: Self) -> (r: bool)
        ensures
            r == (self.bits & other.bits == other.bits),
    {
        self.bits & other.bits == other.bits
    }

    /// The union of the two bit sets.
    pub fn union(self, other: Self) -> (r: Self)
        ensures
            r.bits == self.bits | other.bits,
    {
        MapGpaRangeFlags { bits: self.bits | other.bits }
    }

    /// The range may be read by the guest.
    pub fn read() -> (r: Self)
        ensures
            r.bits == 0x1,
    {
        MapGpaRangeFlags { bits: 0x1 }
    }

    /// The range may be written by the guest.
    pub fn write() -> (r: Self)
        ensures
            r.bits == 0x2,
    {
        MapGpaRangeFlags { bits: 0x2 }
    }

    /// The range may be executed by the guest.
    pub fn execute() -> (r: Self)
        ensures
            r.bits == 0x4,
    {
        MapGpaRangeFlags { bits: 0x4 }
    }

    /// Writes to the range are recorded in the dirty-page log.
    pub fn track_dirty_pages() -> (r: Self)
        ensures
            r.bits == 0x8,
    {
        MapGpaRangeFlags { bits: 0x8 }
    }
}

/// The set of additional exit reasons a partition is configured to deliver.
#[derive(Debug, Clone, Copy, PartialEq, Eq)]
pub struct ExtendedVmExits {
    pub bits: u64,
}

impl ExtendedVmExits {
    /// Wraps a raw bit pattern unchanged, including unknown bits.
    pub fn from_bits_retain(bits: u64) -> (r: Self)
        ensures
            r.bits == bits,
    {
        ExtendedVmExits { bits }
    }

    /// The empty bit set.
    pub fn empty() -> (r: Self)
        ensures
            r.bits == 0,
    {
        ExtendedVmExits { bits: 0 }
    }

    /// The raw bit pattern.
    pub fn bits(&self) -> (r: u64)
        ensures
            r == self.bits,
    {
        self.bits
    }

    /// True when every bit set in `other` is also set in `self`.
    pub fn contains(&self, other: Self) -> (r: bool)
        ensures
            r == (self.bits & other.bits == other.bits),
    {
        self.bits & other.bits == other.bits
    }

    /// The union of the two bit sets.
    pub fn union(self, other: Self) -> (r: Self)
        ensures
            r.bits == self.bits | other.bits,
    {
        ExtendedVmExits { bits: self.bits | other.bits }
    }
}

/// The first bank of virtual-processor feature bits.
#[derive(Debug, Clone, Copy, PartialEq, Eq)]
pub struct ProcessorFeatures {
    pub bits: u64,
}

impl ProcessorFeatures {
    /// Wraps a raw bit pattern unchanged, including unknown bits.
    pub fn from_bits_retain(bits: u64) -> (r: Self)
        ensures
            r.bits == bits,
    {
        ProcessorFeatures { bits }
    }

    /// The empty bit set.
    pub fn empty() -> (r: Self)
        ensures
            r.bits == 0,
    {
        ProcessorFeatures { bits: 0 }
    }

    /// The raw bit pattern.
    pub fn bits(&self) -> (r: u64)
        ensures
            r == self.bits,
    {
        self.bits
    }

    /// True when every bit set in `other` is also set in `self`.
    pub fn contains(&self, other: Self) -> (r: bool)
        ensures
            r == (self.bits & other.bits == other.bits),
    {
        self.bits & other.bits == other.bits
    }

    /// The union of the two bit sets.
    pub fn union(self, other: Self) -> (r: Self)
        ensures
            r.bits == self.bits | other.bits,
    {
        ProcessorFeatures { bits: self.bits | other.bits }
    }
}

/// The second bank of virtual-processor feature bits.
#[derive(Debug, Clone, Copy, PartialEq, Eq)]
pub struct ProcessorFeatures1 {
    pub bits: u64,
}

impl ProcessorFeatures1 {
    /// Wraps a raw bit pattern unchanged, including unknown bits.
    pub fn from_bits_retain(bits: u64) -> (r: Self)
        ensures
            r.bits == bits,
    {
        ProcessorFeatures1 { bits }
    }

    /// The empty bit set.
    pub fn empty() -> (r: Self)
        ensures
            r.bits == 0,
    {
        ProcessorFeatures1 { bits: 0 }
    }

    /// The raw bit pattern.
    pub fn bits(&self) -> (r: u64)
        ensures
            r == self.bits,
    {
        self.bits
    }

    /// True when every bit set in `other` is also set in `self`.
    pub fn contains(&self, other: Self) -> (r: bool)
        ensures
            r == (self.bits & other.bits == other.bits),
    {
        self.bits & other.bits == other.bits
    }

    /// The union of the two bit sets.
    pub fn union(self, other: Self) -> (r: Self)
        ensures
            r.bits == self.bits | other.bits,
    {
        ProcessorFeatures1 { bits: self.bits | other.bits }
    }
}

/// Feature bits of the extended processor state (xsave) area.
#[derive(Debug, Clone, Copy, PartialEq, Eq)]
pub struct ProcessorXsaveFeatures {
    pub bits: u64,
}

impl ProcessorXsaveFeatures {
    /// Wraps a raw bit pattern unchanged, including unknown bits.
    pub fn from_bits_retain(bits: u64) -> (r: Self)
        ensures
            r.bits == bits,
    {
        ProcessorXsaveFeatures { bits }
    }

    /// The empty bit set.
    pub fn empty() -> (r: Self)
        ensures
            r.bits == 0,
    {
        ProcessorXsaveFeatures { bits: 0 }
    }

    /// The raw bit pattern.
    pub fn bits(&self) -> (r: u64)
        ensures
            r == self.bits,
    {
        self.bits
    }

    /// True when every bit set in `other` is also set in `self`.
    pub fn contains(&self, other: Self) -> (r: bool)
        ensures
            r == (self.bits & other.bits == other.bits),
    {
        self.bits & other.bits == other.bits
    }

    /// The union of the two bit sets.
    pub fn union(self, other: Self) -> (r: Self)
        ensures
            r.bits == self.bits | other.bits,
    {
        ProcessorXsaveFeatures { bits: self.bits | other.bits }
    }
}

/// The execution-state word reported with every exit (privilege level, mode and shadow bits).
#[derive(Debug, Clone, Copy, PartialEq, Eq)]
pub struct X64ExecutionState {
    pub bits: u16,
}

impl X64ExecutionState {
    /// Wraps a raw bit pattern unchanged, including unknown bits.
    pub fn from_bits_retain(bits: u16) -> (r: Self)
        ensures
            r.bits == bits,
    {
        X64ExecutionState { bits }
    }

    /// The empty bit set.
    pub fn empty() -> (r: Self)
        ensures
            r.bits == 0,
    {
        X64ExecutionState { bits: 0 }
    }

    /// The raw bit pattern.
    pub fn bits(&self) -> (r: u16)
        ensures
            r == self.bits,
    {
        self.bits
    }

    /// True when every bit set in `other` is also set in `self`.
    pub fn contains(&self, other: Self) -> (r: bool)
        ensures
            r == (self.bits & other.bits == other.bits),
    {
        self.bits & other.bits == other.bits
    }

    /// The union of the two bit sets.
    pub fn union(self, other: Self) -> (r: Self)
        ensures
            r.bits == self.bits | other.bits,
    {
        X64ExecutionState { bits: self.bits | other.bits }
    }
}

/// The packed attribute word of a segment register.
#[derive(Debug, Clone, Copy, PartialEq, Eq)]
pub struct X64SegmentRegisterAttributes {
    pub bits: u16,
}

impl X64SegmentRegisterAttributes {
    /// Wraps a raw bit pattern unchanged, including unknown bits.
    pub fn from_bits_retain(bits: u16) -> (r: Self)
        ensures
            r.bits == bits,
    {
        X64SegmentRegisterAttributes { bits }
    }

    /// The empty bit set.
    pub fn empty() -> (r: Self)
        ensures
            r.bits == 0,
    {
        X64SegmentRegisterAttributes { bits: 0 }
    }

    /// The raw bit pattern.
    pub fn bits(&self) -> (r: u16)
        ensures
            r == self.bits,
    {
        self.bits
    }

    /// True when every bit set in `other` is also set in `self`.
    pub fn contains(&self, other: Self) -> (r: bool)
        ensures
            r == (self.bits & other.bits == other.bits),
    {
        self.bits & other.bits == other.bits
    }

    /// The union of the two bit sets.
    pub fn union(self, other: Self) -> (r: Self)
        ensures
            r.bits == self.bits | other.bits,
    {
        X64SegmentRegisterAttributes { bits: self.bits | other.bits }
    }
}

/// Details of a guest-physical memory access exit.
#[derive(Debug, Clone, Copy, PartialEq, Eq)]
pub struct MemoryAccessInfo {
    pub bits: u32,
}

impl MemoryAccessInfo {
    /// Wraps a raw bit pattern unchanged, including unknown bits.
    pub fn from_bits_retain(bits: u32) -> (r: Self)
        ensures
            r.bits == bits,
    {
        MemoryAccessInfo { bits }
    }

    /// The empty bit set.
    pub fn empty() -> (r: Self)
        ensures
            r.bits == 0,
    {
        MemoryAccessInfo { bits: 0 }
    }

    /// The raw bit pattern.
    pub fn bits(&self) -> (r: u32)
        ensures
            r == self.bits,
    {
        self.bits
    }

    /// True when every bit set in `other` is also set in `self`.
    pub fn contains(&self, other: Self) -> (r: bool)
        ensures
            r == (self.bits & other.bits == other.bits),
    {
        self.bits & other.bits == other.bits
    }

    /// The union of the two bit sets.
    pub fn union(self, other: Self) -> (r: Self)
        ensures
            r.bits == self.bits | other.bits,
    {
        MemoryAccessInfo { bits: self.bits | other.bits }
    }
}

/// Details of an I/O port access exit.
#[derive(Debug, Clone, Copy, PartialEq, Eq)]
pub struct IoPortAccessInfo {
    pub bits: u32,
}

impl IoPortAccessInfo {
    /// Wraps a raw bit pattern unchanged, including unknown bits.
    pub fn from_bits_retain(bits: u32) -> (r: Self)
        ensures
            r.bits == bits,
    {
        IoPortAccessInfo { bits }
    }

    /// The empty bit set.
    pub fn empty() -> (r: Self)
        ensures
            r.bits == 0,
    {
        IoPortAccessInfo { bits: 0 }
    }

    /// The raw bit pattern.
    pub fn bits(&self) -> (r: u32)
        ensures
            r == self.bits,
    {
        self.bits
    }

    /// True when every bit set in `other` is also set in `self`.
    pub fn contains(&self, other: Self) -> (r: bool)
        ensures
            r == (self.bits & other.bits == other.bits),
    {
        self.bits & other.bits == other.bits
    }

    /// The union of the two bit sets.
    pub fn union(self, other: Self) -> (r: Self)
        ensures
            r.bits == self.bits | other.bits,
    {
        IoPortAccessInfo { bits: self.bits | other.bits }
    }
}

/// Details of a model-specific-register access exit.
#[derive(Debug, Clone, Copy, PartialEq, Eq)]
pub struct MsrAccessInfo {
    pub bits: u32,
}

impl MsrAccessInfo {
    /// Wraps a raw bit pattern unchanged, including unknown bits.
    pub fn from_bits_retain(bits: u32) -> (r: Self)
        ensures
            r.bits == bits,
    {
        MsrAccessInfo { bits }
    }

    /// The empty bit set.
    pub fn empty() -> (r: Self)
        ensures
            r.bits == 0,
    {
        MsrAccessInfo { bits: 0 }
    }

    /// The raw bit pattern.
    pub fn bits(&self) -> (r: u32)
        ensures
            r == self.bits,
    {
        self.bits
    }

    /// True when every bit set in `other` is also set in `self`.
    pub fn contains(&self, other: Self) -> (r: bool)
        ensures
            r == (self.bits & other.bits == other.bits),
    {
        self.bits & other.bits == other.bits
    }

    /// The union of the two bit sets.
    pub fn union(self, other: Self) -> (r: Self)
        ensures
            r.bits == self.bits | other.bits,
    {
        MsrAccessInfo { bits: self.bits | other.bits }
    }
}

/// Details of an exception exit.
#[derive(Debug, Clone, Copy, PartialEq, Eq)]
pub struct VpExceptionInfo {
    pub bits: u32,
}

impl VpExceptionInfo {
    /// Wraps a raw bit pattern unchanged, including unknown bits.
    pub fn from_bits_retain(bits: u32) -> (r: Self)
        ensures
            r.bits == bits,
    {
        VpExceptionInfo { bits }
    }

    /// The empty bit set.
    pub fn empty() -> (r: Self)
        ensures
            r.bits == 0,
    {
        VpExceptionInfo { bits: 0 }
    }

    /// The raw bit pattern.
    pub fn bits(&self) -> (r: u32)
        ensures
            r == self.bits,
    {
        self.bits
    }

    /// True when every bit set in `other` is also set in `self`.
    pub fn contains(&self, other: Self) -> (r: bool)
        ensures
            r == (self.bits & other.bits == other.bits),
    {
        self.bits & other.bits == other.bits
    }

    /// The union of the two bit sets.
    pub fn union(self, other: Self) -> (r: Self)
        ensures
            r.bits == self.bits | other.bits,
    {
        VpExceptionInfo { bits: self.bits | other.bits }
    }
}

/// Details of a timestamp-counter read exit.
#[derive(Debug, Clone, Copy, PartialEq, Eq)]
pub struct RdtscInfo {
    pub bits: u64,
}

impl RdtscInfo {
    /// Wraps a raw bit pattern unchanged, including unknown bits.
    pub fn from_bits_retain(bits: u64) -> (r: Self)
        ensures
            r.bits == bits,
    {
        RdtscInfo { bits }
    }

    /// The empty bit set.
    pub fn empty() -> (r: Self)
        ensures
            r.bits == 0,
    {
        RdtscInfo { bits: 0 }
    }

    /// The raw bit pattern.
    pub fn bits(&self) -> (r: u64)
        ensures
            r == self.bits,
    {
        self.bits
    }

    /// True when every bit set in `other` is also set in `self`.
    pub fn contains(&self, other: Self) -> (r: bool)
        ensures
            r == (self.bits & other.bits == other.bits),
    {
        self.bits & other.bits == other.bits
    }

    /// The union of the two bit sets.
    pub fn union(self, other: Self) -> (r: Self)
        ensures
            r.bits == self.bits | other.bits,
    {
        RdtscInfo { bits: self.bits | other.bits }
    }
}

/// Feature bits of the synthetic (hypervisor-interface) processor facilities.
#[derive(Debug, Clone, Copy, PartialEq, Eq)]
pub struct SyntheticProcessorFeatures {
    pub bits: u64,
}

impl SyntheticProcessorFeatures {
    /// Wraps a raw bit pattern unchanged, including unknown bits.
    pub fn from_bits_retain(bits: u64) -> (r: Self)
        ensures
            r.bits == bits,
    {
        SyntheticProcessorFeatures { bits }
    }

    /// The empty bit set.
    pub fn empty() -> (r: Self)
        ensures
            r.bits == 0,
    {
        SyntheticProcessorFeatures { bits: 0 }
    }

    /// The raw bit pattern.
    pub fn bits(&self) -> (r: u64)
        ensures
            r == self.bits,
    {
        self.bits
    }

    /// True when every bit set in `other` is also set in `self`.
    pub fn contains(&self, other: Self) -> (r: bool)
        ensures
            r == (self.bits & other.bits == other.bits),
    {
        self.bits & other.bits == other.bits
    }

    /// The union of the two bit sets.
    pub fn union(self, other: Self) -> (r: Self)
        ensures
            r.bits == self.bits | other.bits,
    {
        SyntheticProcessorFeatures { bits: self.bits | other.bits }
    }
}

/// Qualifiers of one extended CPUID override entry.
#[derive(Debug, Clone, Copy, PartialEq, Eq)]
pub struct X64CpuidResult2Flags {
    pub bits: i32,
}

impl X64CpuidResult2Flags {
    /// Wraps a raw bit pattern unchanged, including unknown bits.
    pub fn from_bits_retain(bits: i32) -> (r: Self)
        ensures
            r.bits == bits,
    {
        X64CpuidResult2Flags { bits }
    }

    /// The empty bit set.
    pub fn empty() -> (r: Self)
        ensures
            r.bits == 0,
    {
        X64CpuidResult2Flags { bits: 0 }
    }

    /// The raw bit pattern.
    pub fn bits(&self) -> (r: i32)
        ensures
            r == self.bits,
    {
        self.bits
    }

    /// True when every bit set in `other` is also set in `self`.
    pub fn contains(&self, other: Self) -> (r: bool)
        ensures
            r == (self.bits & other.bits == other.bits),
    {
        self.bits & other.bits == other.bits
    }

    /// The union of the two bit sets.
    pub fn union(self, other: Self) -> (r: Self)
        ensures
            r.bits == self.bits | other.bits,
    {
        X64CpuidResult2Flags { bits: self.bits | other.bits }
    }
}

/// Selects which model-specific-register accesses exit to the host.
#[derive(Debug, Clone, Copy, PartialEq, Eq)]
pub struct X64MsrExitBitmap {
    pub bits: u64,
}

impl X64MsrExitBitmap {
    /// Wraps a raw bit pattern unchanged, including unknown bits.
    pub fn from_bits_retain(bits: u64) -> (r: Self)
        ensures
            r.bits == bits,
    {
        X64MsrExitBitmap { bits }
    }

    /// The empty bit set.
    pub fn empty() -> (r: Self)
        ensures
            r.bits == 0,
    {
        X64MsrExitBitmap { bits: 0 }
    }

    /// The raw bit pattern.
    pub fn bits(&self) -> (r: u64)
        ensures
            r == self.bits,
    {
        self.bits
    }

    /// True when every bit set in `other` is also set in `self`.
    pub fn contains(&self, other: Self) -> (r: bool)
        ensures
            r == (self.bits & other.bits == other.bits),
    {
        self.bits & other.bits == other.bits
    }

    /// The union of the two bit sets.
    pub fn union(self, other: Self) -> (r: Self)
        ensures
            r.bits == self.bits | other.bits,
    {
        X64MsrExitBitmap { bits: self.bits | other.bits }
    }
}

/// Feature bits of the performance-monitoring facilities.
#[derive(Debug, Clone, Copy, PartialEq, Eq)]
pub struct ProcessorPerfmonFeatures {
    pub bits: u64,
}

impl ProcessorPerfmonFeatures {
    /// Wraps a raw bit pattern unchanged, including unknown bits.
    pub fn from_bits_retain(bits: u64) -> (r: Self)
        ensures
            r.bits == bits,
    {
        ProcessorPerfmonFeatures { bits }
    }

    /// The empty bit set.
    pub fn empty() -> (r: Self)
        ensures
            r.bits == 0,
    {
        ProcessorPerfmonFeatures { bits: 0 }
    }

    /// The raw bit pattern.
    pub fn bits(&self) -> (r: u64)
        ensures
            r == self.bits,
    {
        self.bits
    }

    /// True when every bit set in `other` is also set in `self`.
    pub fn contains(&self, other: Self) -> (r: bool)
        ensures
            r == (self.bits & other.bits == other.bits),
    {
        self.bits & other.bits == other.bits
    }

    /// The union of the two bit sets.
    pub fn union(self, other: Self) -> (r: Self)
        ensures
            r.bits == self.bits | other.bits,
    {
        ProcessorPerfmonFeatures { bits: self.bits | other.bits }
    }
}

/// The packed interrupt-state register of a virtual processor.
#[derive(Debug, Clone, Copy, PartialEq, Eq)]
pub struct InterruptStateRegister {
    pub bits: u64,
}

impl InterruptStateRegister {
    /// Wraps a raw bit pattern unchanged, including unknown bits.
    pub fn from_bits_retain(bits: u64) -> (r: Self)
        ensures
            r.bits == bits,
    {
        InterruptStateRegister { bits }
    }

    /// The empty bit set.
    pub fn empty() -> (r: Self)
        ensures
            r.bits == 0,
    {
        InterruptStateRegister { bits: 0 }
    }

    /// The raw bit pattern.
    pub fn bits(&self) -> (r: u64)
        ensures
            r == self.bits,
    {
        self.bits
    }

    /// True when every bit set in `other` is also set in `self`.
    pub fn contains(&self, other: Self) -> (r: bool)
        ensures
            r == (self.bits & other.bits == other.bits),
    {
        self.bits & other.bits == other.bits
    }

    /// The union of the two bit sets.
    pub fn union(self, other: Self) -> (r: Self)
        ensures
            r.bits == self.bits | other.bits,
    {
        InterruptStateRegister { bits: self.bits | other.bits }
    }
}

} // verus!
