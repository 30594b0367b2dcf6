//! Partition configuration properties.
//!
//! The native layer stores every partition property in one fixed-size
//! union, reinterpreted according to an out-of-band property code.  This
//! module is the registry for that union: the closed set of codes, the
//! typed property values, the one decoding and encoding rule per code, and
//! each property's availability (whether it may still be set once the
//! partition has been set up).  The decoder and encoder are proved inverse
//! of each other for every property.

use vstd::bytes::{
    spec_u16_from_le_bytes, spec_u16_to_le_bytes, spec_u32_from_le_bytes, spec_u32_to_le_bytes,
    spec_u64_from_le_bytes, spec_u64_to_le_bytes,
};
use vstd::prelude::*;

use crate::flags::{
    ExtendedVmExits, ProcessorFeatures, ProcessorFeatures1, ProcessorPerfmonFeatures,
    ProcessorXsaveFeatures, SyntheticProcessorFeatures, X64CpuidResult2Flags, X64MsrExitBitmap,
};
use crate::wire::{
    lemma_i32_u32_round_trip, lemma_le_round_trips, push_u16, push_u32, push_u64, push_u8,
    push_zeros, read_u16, read_u32, read_u64, read_u8, zeros,
};
use crate::Error;

verus! {

broadcast use vstd::array::group_array_axioms;

/// The byte size of the native partition-property union.
pub const PARTITION_PROPERTY_BYTES: usize = 48;

/// When a property may be set.
///
/// The native layer's behaviour when a before-setup property is written to
/// an already-set-up partition is unspecified, so such writes must be
/// rejected before they reach it.
#[derive(Debug, Clone, Copy, PartialEq, Eq)]
pub enum PartitionPropertyAvailability {
    /// May only be set through the builder, before partition setup.
    BeforeSetup,
    /// May be set at any time, before or after partition setup.
    AfterSetup,
}

/// The discriminant of one partition property.
#[derive(Debug, Clone, Copy, PartialEq, Eq, Hash)]
pub enum PartitionPropertyCode {
    ExtendedVmExits,
    ExceptionExitBitmap,
    SeparateSecurityDomain,
    NestedVirtualization,
    X64MsrExitBitmap,
    PrimaryNumaNode,
    CpuReserve,
    CpuCap,
    CpuWeight,
    CpuGroupId,
    ProcessorFrequencyCap,
    AllowDeviceAssignment,
    DisableSmt,
    ProcessorFeatures,
    ProcessorClFlushSize,
    CpuidExitList,
    CpuidResultList,
    LocalApicEmulationMode,
    ProcessorXsaveFeatures,
    ProcessorClockFrequency,
    InterruptClockFrequency,
    ApicRemoteRead,
    ProcessorFeaturesBanks,
    ReferenceTime,
    SyntheticProcessorFeaturesBanks,
    CpuidResultList2,
    ProcessorPerfmonFeatures,
    MsrActionList,
    UnimplementedMsrAction,
    ProcessorCount,
}

impl PartitionPropertyCode {
    /// The raw native value of this property code.
    pub open spec fn spec_to_raw(self) -> i32 {
        match self {
            PartitionPropertyCode::ExtendedVmExits => 0x1,
            PartitionPropertyCode::ExceptionExitBitmap => 0x2,
            PartitionPropertyCode::SeparateSecurityDomain => 0x3,
            PartitionPropertyCode::NestedVirtualization => 0x4,
            PartitionPropertyCode::X64MsrExitBitmap => 0x5,
            PartitionPropertyCode::PrimaryNumaNode => 0x6,
            PartitionPropertyCode::CpuReserve => 0x7,
            PartitionPropertyCode::CpuCap => 0x8,
            PartitionPropertyCode::CpuWeight => 0x9,
            PartitionPropertyCode::CpuGroupId => 0xA,
            PartitionPropertyCode::ProcessorFrequencyCap => 0xB,
            PartitionPropertyCode::AllowDeviceAssignment => 0xC,
            PartitionPropertyCode::DisableSmt => 0xD,
            PartitionPropertyCode::ProcessorFeatures => 0x1001,
            PartitionPropertyCode::ProcessorClFlushSize => 0x1002,
            PartitionPropertyCode::CpuidExitList => 0x1003,
            PartitionPropertyCode::CpuidResultList => 0x1004,
            PartitionPropertyCode::LocalApicEmulationMode => 0x1005,
            PartitionPropertyCode::ProcessorXsaveFeatures => 0x1006,
            PartitionPropertyCode::ProcessorClockFrequency => 0x1007,
            PartitionPropertyCode::InterruptClockFrequency => 0x1008,
            PartitionPropertyCode::ApicRemoteRead => 0x1009,
            PartitionPropertyCode::ProcessorFeaturesBanks => 0x100A,
            PartitionPropertyCode::ReferenceTime => 0x100B,
            PartitionPropertyCode::SyntheticProcessorFeaturesBanks => 0x100C,
            PartitionPropertyCode::CpuidResultList2 => 0x100D,
            PartitionPropertyCode::ProcessorPerfmonFeatures => 0x100E,
            PartitionPropertyCode::MsrActionList => 0x100F,
            PartitionPropertyCode::UnimplementedMsrAction => 0x1010,
            PartitionPropertyCode::ProcessorCount => 0x1fff,
        }
    }

    /// Encodes this property code as its raw native value.
    pub fn to_raw(&self) -> (r: i32)
        ensures
            r == self.spec_to_raw(),
    {
        match self {
            PartitionPropertyCode::ExtendedVmExits => 0x1,
            PartitionPropertyCode::ExceptionExitBitmap => 0x2,
            PartitionPropertyCode::SeparateSecurityDomain => 0x3,
            PartitionPropertyCode::NestedVirtualization => 0x4,
            PartitionPropertyCode::X64MsrExitBitmap => 0x5,
            PartitionPropertyCode::PrimaryNumaNode => 0x6,
            PartitionPropertyCode::CpuReserve => 0x7,
            PartitionPropertyCode::CpuCap => 0x8,
            PartitionPropertyCode::CpuWeight => 0x9,
            PartitionPropertyCode::CpuGroupId => 0xA,
            PartitionPropertyCode::ProcessorFrequencyCap => 0xB,
            PartitionPropertyCode::AllowDeviceAssignment => 0xC,
            PartitionPropertyCode::DisableSmt => 0xD,
            PartitionPropertyCode::ProcessorFeatures => 0x1001,
            PartitionPropertyCode::ProcessorClFlushSize => 0x1002,
            PartitionPropertyCode::CpuidExitList => 0x1003,
            PartitionPropertyCode::CpuidResultList => 0x1004,
            PartitionPropertyCode::LocalApicEmulationMode => 0x1005,
            PartitionPropertyCode::ProcessorXsaveFeatures => 0x1006,
            PartitionPropertyCode::ProcessorClockFrequency => 0x1007,
            PartitionPropertyCode::InterruptClockFrequency => 0x1008,
            PartitionPropertyCode::ApicRemoteRead => 0x1009,
            PartitionPropertyCode::ProcessorFeaturesBanks => 0x100A,
            PartitionPropertyCode::ReferenceTime => 0x100B,
            PartitionPropertyCode::SyntheticProcessorFeaturesBanks => 0x100C,
            PartitionPropertyCode::CpuidResultList2 => 0x100D,
            PartitionPropertyCode::ProcessorPerfmonFeatures => 0x100E,
            PartitionPropertyCode::MsrActionList => 0x100F,
            PartitionPropertyCode::UnimplementedMsrAction => 0x1010,
            PartitionPropertyCode::ProcessorCount => 0x1fff,
        }
    }
}

/// The banks of synthetic (hypervisor-interface) processor features.
#[derive(Debug, Clone, Copy, PartialEq, Eq)]
pub struct SyntheticProcessorFeaturesBanks {
    pub banks_count: u32,
    pub bank_0: SyntheticProcessorFeatures,
}

/// One CPUID override: the leaf and the register values it returns.
#[derive(Debug, Clone, Copy, PartialEq, Eq)]
pub struct X64CpuidResult {
    pub function: u32,
    pub eax: u32,
    pub ebx: u32,
    pub ecx: u32,
    pub edx: u32,
}

/// The four output registers of one CPUID leaf.
#[derive(Debug, Clone, Copy, PartialEq, Eq)]
pub struct CpuidOutput {
    pub eax: u32,
    pub ebx: u32,
    pub ecx: u32,
    pub edx: u32,
}

/// One extended CPUID override: leaf, subleaf, target processor, and the
/// output with a mask selecting which bits the override replaces.
#[derive(Debug, Clone, Copy, PartialEq, Eq)]
pub struct X64CpuidResult2 {
    pub function: u32,
    pub index: u32,
    pub vp_index: u32,
    pub flags: X64CpuidResult2Flags,
    pub output: CpuidOutput,
    pub mask: CpuidOutput,
}

/// The actions taken for one model-specific register.
#[derive(Debug, Clone, Copy, PartialEq, Eq)]
pub struct MsrActionEntry {
    pub index: u32,
    pub read_action: u8,
    pub write_action: u8,
}

/// The action taken when the guest touches an unimplemented
/// model-specific register.
#[derive(Debug, Clone, Copy, PartialEq, Eq)]
pub enum MsrAction {
    ArchitectureDefault,
    IgnoreWriteReadZero,
    Exit,
}

impl MsrAction {
    /// The action for a raw native value.
    pub open spec fn spec_from_raw(raw: u32) -> Result<MsrAction, Error> {
        if raw == 0 {
            Ok(MsrAction::ArchitectureDefault)
        } else if raw == 1 {
            Ok(MsrAction::IgnoreWriteReadZero)
        } else if raw == 2 {
            Ok(MsrAction::Exit)
        } else {
            Err(Error::UnrecognizedDiscriminant(raw as u64))
        }
    }

    /// Decodes a raw native action value; a value outside the closed set
    /// is an out-of-sync native layer, never coerced to a default.
    pub fn from_raw(raw: u32) -> (r: Result<MsrAction, Error>)
        ensures
            r == MsrAction::spec_from_raw(raw),
    {
        match raw {
            0 => Ok(MsrAction::ArchitectureDefault),
            1 => Ok(MsrAction::IgnoreWriteReadZero),
            2 => Ok(MsrAction::Exit),
            _ => Err(Error::UnrecognizedDiscriminant(raw as u64)),
        }
    }

    /// The raw native value of this action.
    pub open spec fn spec_to_raw(self) -> u32 {
        match self {
            MsrAction::ArchitectureDefault => 0,
            MsrAction::IgnoreWriteReadZero => 1,
            MsrAction::Exit => 2,
        }
    }

    /// Encodes this action as its raw native value.
    pub fn to_raw(&self) -> (r: u32)
        ensures
            r == self.spec_to_raw(),
    {
        match self {
            MsrAction::ArchitectureDefault => 0,
            MsrAction::IgnoreWriteReadZero => 1,
            MsrAction::Exit => 2,
        }
    }
}

/// The mode in which the local interrupt controller is emulated.
#[derive(Debug, Clone, Copy, PartialEq, Eq)]
pub enum X64LocalApicEmulationMode {
    Disabled,
    XApic,
    X2Apic,
}

impl X64LocalApicEmulationMode {
    /// The emulation mode for a raw native value.
    pub open spec fn spec_from_raw(raw: u32) -> Result<X64LocalApicEmulationMode, Error> {
        if raw == 0 {
            Ok(X64LocalApicEmulationMode::Disabled)
        } else if raw == 1 {
            Ok(X64LocalApicEmulationMode::XApic)
        } else if raw == 2 {
            Ok(X64LocalApicEmulationMode::X2Apic)
        } else {
            Err(Error::UnrecognizedDiscriminant(raw as u64))
        }
    }

    /// Decodes a raw native emulation-mode value; a value outside the
    /// closed set is an out-of-sync native layer, never coerced.
    pub fn from_raw(raw: u32) -> (r: Result<X64LocalApicEmulationMode, Error>)
        ensures
            r == X64LocalApicEmulationMode::spec_from_raw(raw),
    {
        match raw {
            0 => Ok(X64LocalApicEmulationMode::Disabled),
            1 => Ok(X64LocalApicEmulationMode::XApic),
            2 => Ok(X64LocalApicEmulationMode::X2Apic),
            _ => Err(Error::UnrecognizedDiscriminant(raw as u64)),
        }
    }

    /// The raw native value of this emulation mode.
    pub open spec fn spec_to_raw(self) -> u32 {
        match self {
            X64LocalApicEmulationMode::Disabled => 0,
            X64LocalApicEmulationMode::XApic => 1,
            X64LocalApicEmulationMode::X2Apic => 2,
        }
    }

    /// Encodes this emulation mode as its raw native value.
    pub fn to_raw(&self) -> (r: u32)
        ensures
            r == self.spec_to_raw(),
    {
        match self {
            X64LocalApicEmulationMode::Disabled => 0,
            X64LocalApicEmulationMode::XApic => 1,
            X64LocalApicEmulationMode::X2Apic => 2,
        }
    }
}

/// The two banks of virtual-processor features.
#[derive(Debug, Clone, Copy, PartialEq, Eq)]
pub struct ProcessorFeaturesBanks {
    pub banks_count: u32,
    pub bank_0: ProcessorFeatures,
    pub bank_1: ProcessorFeatures1,
}

/// One typed partition property.
///
/// Each variant carries the payload the matching property code selects;
/// `code` and `from_union`/`to_union` keep the pairing of discriminant and
/// payload interpretation in one place.
#[derive(Debug, Clone, Copy, PartialEq, Eq)]
pub enum PartitionProperty {
    ExtendedVmExits(ExtendedVmExits),
    ProcessorFeatures(ProcessorFeatures),
    SyntheticProcessorFeaturesBanks(SyntheticProcessorFeaturesBanks),
    ProcessorXsaveFeatures(ProcessorXsaveFeatures),
    ProcessorClFlushSize(u8),
    ProcessorCount(u32),
    CpuidExitList([u32; 1]),
    CpuidResultList([X64CpuidResult; 1]),
    CpuidResultList2([X64CpuidResult2; 1]),
    MsrActionList([MsrActionEntry; 1]),
    UnimplementedMsrAction(MsrAction),
    ExceptionExitBitmap(u64),
    LocalApicEmulationMode(X64LocalApicEmulationMode),
    SeparateSecurityDomain(bool),
    NestedVirtualization(bool),
    X64MsrExitBitmap(X64MsrExitBitmap),
    ProcessorClockFrequency(u64),
    InterruptClockFrequency(u64),
    ApicRemoteRead(bool),
    ProcessorFeaturesBanks(ProcessorFeaturesBanks),
    ReferenceTime(u64),
    PrimaryNumaNode(u16),
    CpuReserve(u32),
    CpuCap(u32),
    CpuWeight(u32),
    CpuGroupId(u64),
    ProcessorFrequencyCap(u32),
    AllowDeviceAssignment(bool),
    ProcessorPerfmonFeatures(ProcessorPerfmonFeatures),
    DisableSmt(bool),
}

/// The 48-byte wire image of a boolean property: a 32-bit 1 or 0.
pub open spec fn spec_bool_wire(v: bool) -> Seq<u8> {
    spec_u32_to_le_bytes(if v { 1u32 } else { 0u32 }) + zeros(44)
}

/// The 48-byte wire image of a property whose payload is one `u64`.
pub open spec fn spec_u64_wire(v: u64) -> Seq<u8> {
    spec_u64_to_le_bytes(v) + zeros(40)
}

/// The 48-byte wire image of a property whose payload is one `u32`.
pub open spec fn spec_u32_wire(v: u32) -> Seq<u8> {
    spec_u32_to_le_bytes(v) + zeros(44)
}

impl PartitionProperty {
    /// The discriminant of this property: the single source of truth
    /// pairing each variant with its property code.
    pub open spec fn spec_code(self) -> PartitionPropertyCode {
        match self {
            PartitionProperty::ExtendedVmExits(_) => PartitionPropertyCode::ExtendedVmExits,
            PartitionProperty::ProcessorFeatures(_) => PartitionPropertyCode::ProcessorFeatures,
            PartitionProperty::SyntheticProcessorFeaturesBanks(_) => PartitionPropertyCode::SyntheticProcessorFeaturesBanks,
            PartitionProperty::ProcessorXsaveFeatures(_) => PartitionPropertyCode::ProcessorXsaveFeatures,
            PartitionProperty::ProcessorClFlushSize(_) => PartitionPropertyCode::ProcessorClFlushSize,
            PartitionProperty::ProcessorCount(_) => PartitionPropertyCode::ProcessorCount,
            PartitionProperty::CpuidExitList(_) => PartitionPropertyCode::CpuidExitList,
            PartitionProperty::CpuidResultList(_) => PartitionPropertyCode::CpuidResultList,
            PartitionProperty::CpuidResultList2(_) => PartitionPropertyCode::CpuidResultList2,
            PartitionProperty::MsrActionList(_) => PartitionPropertyCode::MsrActionList,
            PartitionProperty::UnimplementedMsrAction(_) => PartitionPropertyCode::UnimplementedMsrAction,
            PartitionProperty::ExceptionExitBitmap(_) => PartitionPropertyCode::ExceptionExitBitmap,
            PartitionProperty::LocalApicEmulationMode(_) => PartitionPropertyCode::LocalApicEmulationMode,
            PartitionProperty::SeparateSecurityDomain(_) => PartitionPropertyCode::SeparateSecurityDomain,
            PartitionProperty::NestedVirtualization(_) => PartitionPropertyCode::NestedVirtualization,
            PartitionProperty::X64MsrExitBitmap(_) => PartitionPropertyCode::X64MsrExitBitmap,
            PartitionProperty::ProcessorClockFrequency(_) => PartitionPropertyCode::ProcessorClockFrequency,
            PartitionProperty::InterruptClockFrequency(_) => PartitionPropertyCode::InterruptClockFrequency,
            PartitionProperty::ApicRemoteRead(_) => PartitionPropertyCode::ApicRemoteRead,
            PartitionProperty::ProcessorFeaturesBanks(_) => PartitionPropertyCode::ProcessorFeaturesBanks,
            PartitionProperty::ReferenceTime(_) => PartitionPropertyCode::ReferenceTime,
            PartitionProperty::PrimaryNumaNode(_) => PartitionPropertyCode::PrimaryNumaNode,
            PartitionProperty::CpuReserve(_) => PartitionPropertyCode::CpuReserve,
            PartitionProperty::CpuCap(_) => PartitionPropertyCode::CpuCap,
            PartitionProperty::CpuWeight(_) => PartitionPropertyCode::CpuWeight,
            PartitionProperty::CpuGroupId(_) => PartitionPropertyCode::CpuGroupId,
            PartitionProperty::ProcessorFrequencyCap(_) => PartitionPropertyCode::ProcessorFrequencyCap,
            PartitionProperty::AllowDeviceAssignment(_) => PartitionPropertyCode::AllowDeviceAssignment,
            PartitionProperty::ProcessorPerfmonFeatures(_) => PartitionPropertyCode::ProcessorPerfmonFeatures,
            PartitionProperty::DisableSmt(_) => PartitionPropertyCode::DisableSmt,
        }
    }

    /// The discriminant of this property.
    pub fn code(&self) -> (c: PartitionPropertyCode)
        ensures
            c == self.spec_code(),
    {
        match self {
            PartitionProperty::ExtendedVmExits(_) => PartitionPropertyCode::ExtendedVmExits,
            PartitionProperty::ProcessorFeatures(_) => PartitionPropertyCode::ProcessorFeatures,
            PartitionProperty::SyntheticProcessorFeaturesBanks(_) => PartitionPropertyCode::SyntheticProcessorFeaturesBanks,
            PartitionProperty::ProcessorXsaveFeatures(_) => PartitionPropertyCode::ProcessorXsaveFeatures,
            PartitionProperty::ProcessorClFlushSize(_) => PartitionPropertyCode::ProcessorClFlushSize,
            PartitionProperty::ProcessorCount(_) => PartitionPropertyCode::ProcessorCount,
            PartitionProperty::CpuidExitList(_) => PartitionPropertyCode::CpuidExitList,
            PartitionProperty::CpuidResultList(_) => PartitionPropertyCode::CpuidResultList,
            PartitionProperty::CpuidResultList2(_) => PartitionPropertyCode::CpuidResultList2,
            PartitionProperty::MsrActionList(_) => PartitionPropertyCode::MsrActionList,
            PartitionProperty::UnimplementedMsrAction(_) => PartitionPropertyCode::UnimplementedMsrAction,
            PartitionProperty::ExceptionExitBitmap(_) => PartitionPropertyCode::ExceptionExitBitmap,
            PartitionProperty::LocalApicEmulationMode(_) => PartitionPropertyCode::LocalApicEmulationMode,
            PartitionProperty::SeparateSecurityDomain(_) => PartitionPropertyCode::SeparateSecurityDomain,
            PartitionProperty::NestedVirtualization(_) => PartitionPropertyCode::NestedVirtualization,
            PartitionProperty::X64MsrExitBitmap(_) => PartitionPropertyCode::X64MsrExitBitmap,
            PartitionProperty::ProcessorClockFrequency(_) => PartitionPropertyCode::ProcessorClockFrequency,
            PartitionProperty::InterruptClockFrequency(_) => PartitionPropertyCode::InterruptClockFrequency,
            PartitionProperty::ApicRemoteRead(_) => PartitionPropertyCode::ApicRemoteRead,
            PartitionProperty::ProcessorFeaturesBanks(_) => PartitionPropertyCode::ProcessorFeaturesBanks,
            PartitionProperty::ReferenceTime(_) => PartitionPropertyCode::ReferenceTime,
            PartitionProperty::PrimaryNumaNode(_) => PartitionPropertyCode::PrimaryNumaNode,
            PartitionProperty::CpuReserve(_) => PartitionPropertyCode::CpuReserve,
            PartitionProperty::CpuCap(_) => PartitionPropertyCode::CpuCap,
            PartitionProperty::CpuWeight(_) => PartitionPropertyCode::CpuWeight,
            PartitionProperty::CpuGroupId(_) => PartitionPropertyCode::CpuGroupId,
            PartitionProperty::ProcessorFrequencyCap(_) => PartitionPropertyCode::ProcessorFrequencyCap,
            PartitionProperty::AllowDeviceAssignment(_) => PartitionPropertyCode::AllowDeviceAssignment,
            PartitionProperty::ProcessorPerfmonFeatures(_) => PartitionPropertyCode::ProcessorPerfmonFeatures,
            PartitionProperty::DisableSmt(_) => PartitionPropertyCode::DisableSmt,
        }
    }

    /// This property's availability, a pure function of the variant.
    ///
    /// The architectural and configuration properties fix the shape of the
    /// partition and may only be set before setup.  The scheduling and
    /// accounting knobs — NUMA node, CPU reserve, cap, weight and group,
    /// the frequency cap, and the reference time — are adjustable on a
    /// running partition.
    pub open spec fn spec_availibility(self) -> PartitionPropertyAvailability {
        match self {
            PartitionProperty::ReferenceTime(_) => PartitionPropertyAvailability::AfterSetup,
            PartitionProperty::PrimaryNumaNode(_) => PartitionPropertyAvailability::AfterSetup,
            PartitionProperty::CpuReserve(_) => PartitionPropertyAvailability::AfterSetup,
            PartitionProperty::CpuCap(_) => PartitionPropertyAvailability::AfterSetup,
            PartitionProperty::CpuWeight(_) => PartitionPropertyAvailability::AfterSetup,
            PartitionProperty::CpuGroupId(_) => PartitionPropertyAvailability::AfterSetup,
            PartitionProperty::ProcessorFrequencyCap(_) => PartitionPropertyAvailability::AfterSetup,
            _ => PartitionPropertyAvailability::BeforeSetup,
        }
    }

    /// This property's availability.
    pub fn availibility(&self) -> (a: PartitionPropertyAvailability)
        ensures
            a == self.spec_availibility(),
    {
        match self {
            PartitionProperty::ReferenceTime(_) => PartitionPropertyAvailability::AfterSetup,
            PartitionProperty::PrimaryNumaNode(_) => PartitionPropertyAvailability::AfterSetup,
            PartitionProperty::CpuReserve(_) => PartitionPropertyAvailability::AfterSetup,
            PartitionProperty::CpuCap(_) => PartitionPropertyAvailability::AfterSetup,
            PartitionProperty::CpuWeight(_) => PartitionPropertyAvailability::AfterSetup,
            PartitionProperty::CpuGroupId(_) => PartitionPropertyAvailability::AfterSetup,
            PartitionProperty::ProcessorFrequencyCap(_) => PartitionPropertyAvailability::AfterSetup,
            _ => PartitionPropertyAvailability::BeforeSetup,
        }
    }

    /// The 48-byte wire image of this property: its payload at offset 0
    /// in the layout its code selects, then zero padding.
    pub open spec fn spec_to_union(self) -> Seq<u8> {
        match self {
            PartitionProperty::ExtendedVmExits(v) => spec_u64_wire(v.bits),
            PartitionProperty::ProcessorFeatures(v) => spec_u64_wire(v.bits),
            PartitionProperty::SyntheticProcessorFeaturesBanks(b) => spec_u32_to_le_bytes(
                b.banks_count,
            ) + spec_u32_to_le_bytes(0) + spec_u64_to_le_bytes(b.bank_0.bits) + zeros(32),
            PartitionProperty::ProcessorXsaveFeatures(v) => spec_u64_wire(v.bits),
            PartitionProperty::ProcessorClFlushSize(v) => seq![v] + zeros(47),
            PartitionProperty::ProcessorCount(v) => spec_u32_wire(v),
            PartitionProperty::CpuidExitList(l) => spec_u32_wire(l[0]),
            PartitionProperty::CpuidResultList(l) => spec_u32_to_le_bytes(l[0].function) + zeros(12)
                + spec_u32_to_le_bytes(l[0].eax) + spec_u32_to_le_bytes(l[0].ebx)
                + spec_u32_to_le_bytes(l[0].ecx) + spec_u32_to_le_bytes(l[0].edx) + zeros(16),
            PartitionProperty::CpuidResultList2(l) => spec_u32_to_le_bytes(l[0].function)
                + spec_u32_to_le_bytes(l[0].index) + spec_u32_to_le_bytes(l[0].vp_index)
                + spec_u32_to_le_bytes(l[0].flags.bits as u32) + spec_u32_to_le_bytes(l[0].output.eax)
                + spec_u32_to_le_bytes(l[0].output.ebx) + spec_u32_to_le_bytes(l[0].output.ecx)
                + spec_u32_to_le_bytes(l[0].output.edx) + spec_u32_to_le_bytes(l[0].mask.eax)
                + spec_u32_to_le_bytes(l[0].mask.ebx) + spec_u32_to_le_bytes(l[0].mask.ecx)
                + spec_u32_to_le_bytes(l[0].mask.edx),
            PartitionProperty::MsrActionList(l) => spec_u32_to_le_bytes(l[0].index) + seq![
                l[0].read_action,
            ] + seq![l[0].write_action] + spec_u16_to_le_bytes(0) + zeros(40),
            PartitionProperty::UnimplementedMsrAction(m) => spec_u32_wire(m.spec_to_raw()),
            PartitionProperty::ExceptionExitBitmap(v) => spec_u64_wire(v),
            PartitionProperty::LocalApicEmulationMode(m) => spec_u32_wire(m.spec_to_raw()),
            PartitionProperty::SeparateSecurityDomain(v) => spec_bool_wire(v),
            PartitionProperty::NestedVirtualization(v) => spec_bool_wire(v),
            PartitionProperty::X64MsrExitBitmap(v) => spec_u64_wire(v.bits),
            PartitionProperty::ProcessorClockFrequency(v) => spec_u64_wire(v),
            PartitionProperty::InterruptClockFrequency(v) => spec_u64_wire(v),
            PartitionProperty::ApicRemoteRead(v) => spec_bool_wire(v),
            PartitionProperty::ProcessorFeaturesBanks(b) => spec_u32_to_le_bytes(b.banks_count)
                + spec_u32_to_le_bytes(0) + spec_u64_to_le_bytes(b.bank_0.bits)
                + spec_u64_to_le_bytes(b.bank_1.bits) + zeros(24),
            PartitionProperty::ReferenceTime(v) => spec_u64_wire(v),
            PartitionProperty::PrimaryNumaNode(v) => spec_u16_to_le_bytes(v) + zeros(46),
            PartitionProperty::CpuReserve(v) => spec_u32_wire(v),
            PartitionProperty::CpuCap(v) => spec_u32_wire(v),
            PartitionProperty::CpuWeight(v) => spec_u32_wire(v),
            PartitionProperty::CpuGroupId(v) => spec_u64_wire(v),
            PartitionProperty::ProcessorFrequencyCap(v) => spec_u32_wire(v),
            PartitionProperty::AllowDeviceAssignment(v) => spec_bool_wire(v),
            PartitionProperty::ProcessorPerfmonFeatures(v) => spec_u64_wire(v.bits),
            PartitionProperty::DisableSmt(v) => spec_bool_wire(v),
        }
    }

    /// Encodes this property as the 48-byte payload of the native union.
    pub fn to_union(&self) -> (r: Vec<u8>)
        ensures
            r@ == self.spec_to_union(),
            r@.len() == PARTITION_PROPERTY_BYTES,
    {
        proof {
            lemma_le_round_trips();
        }
        let mut out: Vec<u8> = Vec::new();
        match self {
            PartitionProperty::ExtendedVmExits(v) => {
                push_u64(&mut out, v.bits);
                push_zeros(&mut out, 40);
            },
            PartitionProperty::ProcessorFeatures(v) => {
                push_u64(&mut out, v.bits);
                push_zeros(&mut out, 40);
            },
            PartitionProperty::SyntheticProcessorFeaturesBanks(b) => {
                push_u32(&mut out, b.banks_count);
                push_u32(&mut out, 0);
                push_u64(&mut out, b.bank_0.bits);
                push_zeros(&mut out, 32);
            },
            PartitionProperty::ProcessorXsaveFeatures(v) => {
                push_u64(&mut out, v.bits);
                push_zeros(&mut out, 40);
            },
            PartitionProperty::ProcessorClFlushSize(v) => {
                push_u8(&mut out, *v);
                push_zeros(&mut out, 47);
            },
            PartitionProperty::ProcessorCount(v) => {
                push_u32(&mut out, *v);
                push_zeros(&mut out, 44);
            },
            PartitionProperty::CpuidExitList(l) => {
                push_u32(&mut out, l[0]);
                push_zeros(&mut out, 44);
            },
            PartitionProperty::CpuidResultList(l) => {
                push_u32(&mut out, l[0].function);
                push_zeros(&mut out, 12);
                push_u32(&mut out, l[0].eax);
                push_u32(&mut out, l[0].ebx);
                push_u32(&mut out, l[0].ecx);
                push_u32(&mut out, l[0].edx);
                push_zeros(&mut out, 16);
            },
            PartitionProperty::CpuidResultList2(l) => {
                push_u32(&mut out, l[0].function);
                push_u32(&mut out, l[0].index);
                push_u32(&mut out, l[0].vp_index);
                push_u32(&mut out, l[0].flags.bits as u32);
                push_u32(&mut out, l[0].output.eax);
                push_u32(&mut out, l[0].output.ebx);
                push_u32(&mut out, l[0].output.ecx);
                push_u32(&mut out, l[0].output.edx);
                push_u32(&mut out, l[0].mask.eax);
                push_u32(&mut out, l[0].mask.ebx);
                push_u32(&mut out, l[0].mask.ecx);
                push_u32(&mut out, l[0].mask.edx);
            },
            PartitionProperty::MsrActionList(l) => {
                push_u32(&mut out, l[0].index);
                push_u8(&mut out, l[0].read_action);
                push_u8(&mut out, l[0].write_action);
                push_u16(&mut out, 0);
                push_zeros(&mut out, 40);
            },
            PartitionProperty::UnimplementedMsrAction(m) => {
                push_u32(&mut out, m.to_raw());
                push_zeros(&mut out, 44);
            },
            PartitionProperty::ExceptionExitBitmap(v) => {
                push_u64(&mut out, *v);
                push_zeros(&mut out, 40);
            },
            PartitionProperty::LocalApicEmulationMode(m) => {
                push_u32(&mut out, m.to_raw());
                push_zeros(&mut out, 44);
            },
            PartitionProperty::SeparateSecurityDomain(v) => {
                push_u32(&mut out, if *v { 1 } else { 0 });
                push_zeros(&mut out, 44);
            },
            PartitionProperty::NestedVirtualization(v) => {
                push_u32(&mut out, if *v { 1 } else { 0 });
                push_zeros(&mut out, 44);
            },
            PartitionProperty::X64MsrExitBitmap(v) => {
                push_u64(&mut out, v.bits);
                push_zeros(&mut out, 40);
            },
            PartitionProperty::ProcessorClockFrequency(v) => {
                push_u64(&mut out, *v);
                push_zeros(&mut out, 40);
            },
            PartitionProperty::InterruptClockFrequency(v) => {
                push_u64(&mut out, *v);
                push_zeros(&mut out, 40);
            },
            PartitionProperty::ApicRemoteRead(v) => {
                push_u32(&mut out, if *v { 1 } else { 0 });
                push_zeros(&mut out, 44);
            },
            PartitionProperty::ProcessorFeaturesBanks(b) => {
                push_u32(&mut out, b.banks_count);
                push_u32(&mut out, 0);
                push_u64(&mut out, b.bank_0.bits);
                push_u64(&mut out, b.bank_1.bits);
                push_zeros(&mut out, 24);
            },
            PartitionProperty::ReferenceTime(v) => {
                push_u64(&mut out, *v);
                push_zeros(&mut out, 40);
            },
            PartitionProperty::PrimaryNumaNode(v) => {
                push_u16(&mut out, *v);
                push_zeros(&mut out, 46);
            },
            PartitionProperty::CpuReserve(v) => {
                push_u32(&mut out, *v);
                push_zeros(&mut out, 44);
            },
            PartitionProperty::CpuCap(v) => {
                push_u32(&mut out, *v);
                push_zeros(&mut out, 44);
            },
            PartitionProperty::CpuWeight(v) => {
                push_u32(&mut out, *v);
                push_zeros(&mut out, 44);
            },
            PartitionProperty::CpuGroupId(v) => {
                push_u64(&mut out, *v);
                push_zeros(&mut out, 40);
            },
            PartitionProperty::ProcessorFrequencyCap(v) => {
                push_u32(&mut out, *v);
                push_zeros(&mut out, 44);
            },
            PartitionProperty::AllowDeviceAssignment(v) => {
                push_u32(&mut out, if *v { 1 } else { 0 });
                push_zeros(&mut out, 44);
            },
            PartitionProperty::ProcessorPerfmonFeatures(v) => {
                push_u64(&mut out, v.bits);
                push_zeros(&mut out, 40);
            },
            PartitionProperty::DisableSmt(v) => {
                push_u32(&mut out, if *v { 1 } else { 0 });
                push_zeros(&mut out, 44);
            },
        }
        proof {
            assert(out@ =~= self.spec_to_union());
        }
        out
    }

    /// The one valid interpretation of a raw property payload for each
    /// property code.
    pub open spec fn spec_from_union(code: PartitionPropertyCode, s: Seq<u8>) -> Result<
        PartitionProperty,
        Error,
    >
        recommends
            s.len() == PARTITION_PROPERTY_BYTES,
    {
        match code {
            PartitionPropertyCode::ExtendedVmExits => Ok(
                PartitionProperty::ExtendedVmExits(
                    ExtendedVmExits { bits: spec_u64_from_le_bytes(s.subrange(0, 8)) },
                ),
            ),
            PartitionPropertyCode::ExceptionExitBitmap => Ok(
                PartitionProperty::ExceptionExitBitmap(spec_u64_from_le_bytes(s.subrange(0, 8))),
            ),
            PartitionPropertyCode::SeparateSecurityDomain => Ok(
                PartitionProperty::SeparateSecurityDomain(
                    spec_u32_from_le_bytes(s.subrange(0, 4)) != 0,
                ),
            ),
            PartitionPropertyCode::NestedVirtualization => Ok(
                PartitionProperty::NestedVirtualization(
                    spec_u32_from_le_bytes(s.subrange(0, 4)) != 0,
                ),
            ),
            PartitionPropertyCode::X64MsrExitBitmap => Ok(
                PartitionProperty::X64MsrExitBitmap(
                    X64MsrExitBitmap { bits: spec_u64_from_le_bytes(s.subrange(0, 8)) },
                ),
            ),
            PartitionPropertyCode::PrimaryNumaNode => Ok(
                PartitionProperty::PrimaryNumaNode(spec_u16_from_le_bytes(s.subrange(0, 2))),
            ),
            PartitionPropertyCode::CpuReserve => Ok(
                PartitionProperty::CpuReserve(spec_u32_from_le_bytes(s.subrange(0, 4))),
            ),
            PartitionPropertyCode::CpuCap => Ok(
                PartitionProperty::CpuCap(spec_u32_from_le_bytes(s.subrange(0, 4))),
            ),
            PartitionPropertyCode::CpuWeight => Ok(
                PartitionProperty::CpuWeight(spec_u32_from_le_bytes(s.subrange(0, 4))),
            ),
            PartitionPropertyCode::CpuGroupId => Ok(
                PartitionProperty::CpuGroupId(spec_u64_from_le_bytes(s.subrange(0, 8))),
            ),
            PartitionPropertyCode::ProcessorFrequencyCap => Ok(
                PartitionProperty::ProcessorFrequencyCap(spec_u32_from_le_bytes(s.subrange(0, 4))),
            ),
            PartitionPropertyCode::AllowDeviceAssignment => Ok(
                PartitionProperty::AllowDeviceAssignment(
                    spec_u32_from_le_bytes(s.subrange(0, 4)) != 0,
                ),
            ),
            PartitionPropertyCode::DisableSmt => Ok(
                PartitionProperty::DisableSmt(spec_u32_from_le_bytes(s.subrange(0, 4)) != 0),
            ),
            PartitionPropertyCode::ProcessorFeatures => Ok(
                PartitionProperty::ProcessorFeatures(
                    ProcessorFeatures { bits: spec_u64_from_le_bytes(s.subrange(0, 8)) },
                ),
            ),
            PartitionPropertyCode::ProcessorClFlushSize => Ok(
                PartitionProperty::ProcessorClFlushSize(s[0]),
            ),
            PartitionPropertyCode::CpuidExitList => Ok(
                PartitionProperty::CpuidExitList([spec_u32_from_le_bytes(s.subrange(0, 4))]),
            ),
            PartitionPropertyCode::CpuidResultList => Ok(
                PartitionProperty::CpuidResultList(
                    [
                        X64CpuidResult {
                            function: spec_u32_from_le_bytes(s.subrange(0, 4)),
                            eax: spec_u32_from_le_bytes(s.subrange(16, 20)),
                            ebx: spec_u32_from_le_bytes(s.subrange(20, 24)),
                            ecx: spec_u32_from_le_bytes(s.subrange(24, 28)),
                            edx: spec_u32_from_le_bytes(s.subrange(28, 32)),
                        },
                    ],
                ),
            ),
            PartitionPropertyCode::LocalApicEmulationMode => match X64LocalApicEmulationMode::spec_from_raw(
                spec_u32_from_le_bytes(s.subrange(0, 4)),
            ) {
                Ok(m) => Ok(PartitionProperty::LocalApicEmulationMode(m)),
                Err(e) => Err(e),
            },
            PartitionPropertyCode::ProcessorXsaveFeatures => Ok(
                PartitionProperty::ProcessorXsaveFeatures(
                    ProcessorXsaveFeatures { bits: spec_u64_from_le_bytes(s.subrange(0, 8)) },
                ),
            ),
            PartitionPropertyCode::ProcessorClockFrequency => Ok(
                PartitionProperty::ProcessorClockFrequency(
                    spec_u64_from_le_bytes(s.subrange(0, 8)),
                ),
            ),
            PartitionPropertyCode::InterruptClockFrequency => Ok(
                PartitionProperty::InterruptClockFrequency(
                    spec_u64_from_le_bytes(s.subrange(0, 8)),
                ),
            ),
            PartitionPropertyCode::ApicRemoteRead => Ok(
                PartitionProperty::ApicRemoteRead(spec_u32_from_le_bytes(s.subrange(0, 4)) != 0),
            ),
            PartitionPropertyCode::ProcessorFeaturesBanks => Ok(
                PartitionProperty::ProcessorFeaturesBanks(
                    ProcessorFeaturesBanks {
                        banks_count: spec_u32_from_le_bytes(s.subrange(0, 4)),
                        bank_0: ProcessorFeatures {
                            bits: spec_u64_from_le_bytes(s.subrange(8, 16)),
                        },
                        bank_1: ProcessorFeatures1 {
                            bits: spec_u64_from_le_bytes(s.subrange(16, 24)),
                        },
                    },
                ),
            ),
            PartitionPropertyCode::ReferenceTime => Ok(
                PartitionProperty::ReferenceTime(spec_u64_from_le_bytes(s.subrange(0, 8))),
            ),
            PartitionPropertyCode::SyntheticProcessorFeaturesBanks => Ok(
                PartitionProperty::SyntheticProcessorFeaturesBanks(
                    SyntheticProcessorFeaturesBanks {
                        banks_count: spec_u32_from_le_bytes(s.subrange(0, 4)),
                        bank_0: SyntheticProcessorFeatures {
                            bits: spec_u64_from_le_bytes(s.subrange(8, 16)),
                        },
                    },
                ),
            ),
            PartitionPropertyCode::CpuidResultList2 => Ok(
                PartitionProperty::CpuidResultList2(
                    [
                        X64CpuidResult2 {
                            function: spec_u32_from_le_bytes(s.subrange(0, 4)),
                            index: spec_u32_from_le_bytes(s.subrange(4, 8)),
                            vp_index: spec_u32_from_le_bytes(s.subrange(8, 12)),
                            flags: X64CpuidResult2Flags {
                                bits: spec_u32_from_le_bytes(s.subrange(12, 16)) as i32,
                            },
                            output: CpuidOutput {
                                eax: spec_u32_from_le_bytes(s.subrange(16, 20)),
                                ebx: spec_u32_from_le_bytes(s.subrange(20, 24)),
                                ecx: spec_u32_from_le_bytes(s.subrange(24, 28)),
                                edx: spec_u32_from_le_bytes(s.subrange(28, 32)),
                            },
                            mask: CpuidOutput {
                                eax: spec_u32_from_le_bytes(s.subrange(32, 36)),
                                ebx: spec_u32_from_le_bytes(s.subrange(36, 40)),
                                ecx: spec_u32_from_le_bytes(s.subrange(40, 44)),
                                edx: spec_u32_from_le_bytes(s.subrange(44, 48)),
                            },
                        },
                    ],
                ),
            ),
            PartitionPropertyCode::ProcessorPerfmonFeatures => Ok(
                PartitionProperty::ProcessorPerfmonFeatures(
                    ProcessorPerfmonFeatures { bits: spec_u64_from_le_bytes(s.subrange(0, 8)) },
                ),
            ),
            PartitionPropertyCode::MsrActionList => Ok(
                PartitionProperty::MsrActionList(
                    [
                        MsrActionEntry {
                            index: spec_u32_from_le_bytes(s.subrange(0, 4)),
                            read_action: s[4],
                            write_action: s[5],
                        },
                    ],
                ),
            ),
            PartitionPropertyCode::UnimplementedMsrAction => match MsrAction::spec_from_raw(
                spec_u32_from_le_bytes(s.subrange(0, 4)),
            ) {
                Ok(m) => Ok(PartitionProperty::UnimplementedMsrAction(m)),
                Err(e) => Err(e),
            },
            PartitionPropertyCode::ProcessorCount => Ok(
                PartitionProperty::ProcessorCount(spec_u32_from_le_bytes(s.subrange(0, 4))),
            ),
        }
    }

    /// Decodes the raw property payload the native layer produced for
    /// `code`, reading the bytes with the interpretation the code alone
    /// selects — never by inspecting the payload.
    pub fn from_union(code: PartitionPropertyCode, raw: &Vec<u8>) -> (r: Result<
        PartitionProperty,
        Error,
    >)
        requires
            raw@.len() == PARTITION_PROPERTY_BYTES,
        ensures
            r == PartitionProperty::spec_from_union(code, raw@),
    {
        let s = raw.as_slice();
        match code {
            PartitionPropertyCode::ExtendedVmExits => Ok(
                PartitionProperty::ExtendedVmExits(
                    ExtendedVmExits::from_bits_retain(read_u64(s, 0)),
                ),
            ),
            PartitionPropertyCode::ExceptionExitBitmap => Ok(
                PartitionProperty::ExceptionExitBitmap(read_u64(s, 0)),
            ),
            PartitionPropertyCode::SeparateSecurityDomain => Ok(
                PartitionProperty::SeparateSecurityDomain(read_u32(s, 0) != 0),
            ),
            PartitionPropertyCode::NestedVirtualization => Ok(
                PartitionProperty::NestedVirtualization(read_u32(s, 0) != 0),
            ),
            PartitionPropertyCode::X64MsrExitBitmap => Ok(
                PartitionProperty::X64MsrExitBitmap(
                    X64MsrExitBitmap::from_bits_retain(read_u64(s, 0)),
                ),
            ),
            PartitionPropertyCode::PrimaryNumaNode => Ok(
                PartitionProperty::PrimaryNumaNode(read_u16(s, 0)),
            ),
            PartitionPropertyCode::CpuReserve => Ok(PartitionProperty::CpuReserve(read_u32(s, 0))),
            PartitionPropertyCode::CpuCap => Ok(PartitionProperty::CpuCap(read_u32(s, 0))),
            PartitionPropertyCode::CpuWeight => Ok(PartitionProperty::CpuWeight(read_u32(s, 0))),
            PartitionPropertyCode::CpuGroupId => Ok(PartitionProperty::CpuGroupId(read_u64(s, 0))),
            PartitionPropertyCode::ProcessorFrequencyCap => Ok(
                PartitionProperty::ProcessorFrequencyCap(read_u32(s, 0)),
            ),
            PartitionPropertyCode::AllowDeviceAssignment => Ok(
                PartitionProperty::AllowDeviceAssignment(read_u32(s, 0) != 0),
            ),
            PartitionPropertyCode::DisableSmt => Ok(
                PartitionProperty::DisableSmt(read_u32(s, 0) != 0),
            ),
            PartitionPropertyCode::ProcessorFeatures => Ok(
                PartitionProperty::ProcessorFeatures(
                    ProcessorFeatures::from_bits_retain(read_u64(s, 0)),
                ),
            ),
            PartitionPropertyCode::ProcessorClFlushSize => Ok(
                PartitionProperty::ProcessorClFlushSize(read_u8(s, 0)),
            ),
            PartitionPropertyCode::CpuidExitList => Ok(
                PartitionProperty::CpuidExitList([read_u32(s, 0)]),
            ),
            PartitionPropertyCode::CpuidResultList => Ok(
                PartitionProperty::CpuidResultList(
                    [
                        X64CpuidResult {
                            function: read_u32(s, 0),
                            eax: read_u32(s, 16),
                            ebx: read_u32(s, 20),
                            ecx: read_u32(s, 24),
                            edx: read_u32(s, 28),
                        },
                    ],
                ),
            ),
            PartitionPropertyCode::LocalApicEmulationMode => {
                match X64LocalApicEmulationMode::from_raw(read_u32(s, 0)) {
                    Ok(m) => Ok(PartitionProperty::LocalApicEmulationMode(m)),
                    Err(e) => Err(e),
                }
            },
            PartitionPropertyCode::ProcessorXsaveFeatures => Ok(
                PartitionProperty::ProcessorXsaveFeatures(
                    ProcessorXsaveFeatures::from_bits_retain(read_u64(s, 0)),
                ),
            ),
            PartitionPropertyCode::ProcessorClockFrequency => Ok(
                PartitionProperty::ProcessorClockFrequency(read_u64(s, 0)),
            ),
            PartitionPropertyCode::InterruptClockFrequency => Ok(
                PartitionProperty::InterruptClockFrequency(read_u64(s, 0)),
            ),
            PartitionPropertyCode::ApicRemoteRead => Ok(
                PartitionProperty::ApicRemoteRead(read_u32(s, 0) != 0),
            ),
            PartitionPropertyCode::ProcessorFeaturesBanks => Ok(
                PartitionProperty::ProcessorFeaturesBanks(
                    ProcessorFeaturesBanks {
                        banks_count: read_u32(s, 0),
                        bank_0: ProcessorFeatures::from_bits_retain(read_u64(s, 8)),
                        bank_1: ProcessorFeatures1::from_bits_retain(read_u64(s, 16)),
                    },
                ),
            ),
            PartitionPropertyCode::ReferenceTime => Ok(
                PartitionProperty::ReferenceTime(read_u64(s, 0)),
            ),
            PartitionPropertyCode::SyntheticProcessorFeaturesBanks => Ok(
                PartitionProperty::SyntheticProcessorFeaturesBanks(
                    SyntheticProcessorFeaturesBanks {
                        banks_count: read_u32(s, 0),
                        bank_0: SyntheticProcessorFeatures::from_bits_retain(read_u64(s, 8)),
                    },
                ),
            ),
            PartitionPropertyCode::CpuidResultList2 => Ok(
                PartitionProperty::CpuidResultList2(
                    [
                        X64CpuidResult2 {
                            function: read_u32(s, 0),
                            index: read_u32(s, 4),
                            vp_index: read_u32(s, 8),
                            flags: X64CpuidResult2Flags::from_bits_retain(read_u32(s, 12) as i32),
                            output: CpuidOutput {
                                eax: read_u32(s, 16),
                                ebx: read_u32(s, 20),
                                ecx: read_u32(s, 24),
                                edx: read_u32(s, 28),
                            },
                            mask: CpuidOutput {
                                eax: read_u32(s, 32),
                                ebx: read_u32(s, 36),
                                ecx: read_u32(s, 40),
                                edx: read_u32(s, 44),
                            },
                        },
                    ],
                ),
            ),
            PartitionPropertyCode::ProcessorPerfmonFeatures => Ok(
                PartitionProperty::ProcessorPerfmonFeatures(
                    ProcessorPerfmonFeatures::from_bits_retain(read_u64(s, 0)),
                ),
            ),
            PartitionPropertyCode::MsrActionList => Ok(
                PartitionProperty::MsrActionList(
                    [
                        MsrActionEntry {
                            index: read_u32(s, 0),
                            read_action: read_u8(s, 4),
                            write_action: read_u8(s, 5),
                        },
                    ],
                ),
            ),
            PartitionPropertyCode::UnimplementedMsrAction => {
                match MsrAction::from_raw(read_u32(s, 0)) {
                    Ok(m) => Ok(PartitionProperty::UnimplementedMsrAction(m)),
                    Err(e) => Err(e),
                }
            },
            PartitionPropertyCode::ProcessorCount => Ok(
                PartitionProperty::ProcessorCount(read_u32(s, 0)),
            ),
        }
    }

    /// The set-property request for a partition that has already been set
    /// up: the property code and wire payload when the property is still
    /// settable, and the dedicated availability error — raised before any
    /// native call — when it may only be set through the builder.
    pub fn set_request_after_setup(self) -> (r: Result<(PartitionPropertyCode, Vec<u8>), Error>)
        ensures
            self.spec_availibility() is BeforeSetup ==> (r matches Err(e) && e
                == Error::IncompatiblePropertyAvailibility(self)),
            self.spec_availibility() is AfterSetup ==> (r matches Ok(enc) && enc.0
                == self.spec_code() && enc.1@ == self.spec_to_union()),
    {
        match self.availibility() {
            PartitionPropertyAvailability::BeforeSetup => Err(
                Error::IncompatiblePropertyAvailibility(self),
            ),
            PartitionPropertyAvailability::AfterSetup => Ok((self.code(), self.to_union())),
        }
    }
}

/// Decoding the wire image of a property with that property's own code
/// reconstructs the property exactly: the encoder and decoder of the
/// registry are inverse of each other for every supported property.
pub proof fn lemma_property_round_trip(p: PartitionProperty)
    ensures
        PartitionProperty::spec_from_union(p.spec_code(), p.spec_to_union()) == Ok::<
            PartitionProperty,
            Error,
        >(p),
{
    lemma_le_round_trips();
    let s = p.spec_to_union();
    match p {
        PartitionProperty::ExtendedVmExits(v) => {
            assert(s.subrange(0, 8) =~= spec_u64_to_le_bytes(v.bits));
        },
        PartitionProperty::ProcessorFeatures(v) => {
            assert(s.subrange(0, 8) =~= spec_u64_to_le_bytes(v.bits));
        },
        PartitionProperty::SyntheticProcessorFeaturesBanks(b) => {
            assert(s.subrange(0, 4) =~= spec_u32_to_le_bytes(b.banks_count));
            assert(s.subrange(8, 16) =~= spec_u64_to_le_bytes(b.bank_0.bits));
            assert(PartitionProperty::spec_from_union(p.spec_code(), s) == Ok::<
                PartitionProperty,
                Error,
            >(
                PartitionProperty::SyntheticProcessorFeaturesBanks(
                    SyntheticProcessorFeaturesBanks {
                        banks_count: b.banks_count,
                        bank_0: SyntheticProcessorFeatures { bits: b.bank_0.bits },
                    },
                ),
            ));
        },
        PartitionProperty::ProcessorXsaveFeatures(v) => {
            assert(s.subrange(0, 8) =~= spec_u64_to_le_bytes(v.bits));
        },
        PartitionProperty::ProcessorClFlushSize(v) => {
            assert(s[0] == v);
        },
        PartitionProperty::ProcessorCount(v) => {
            assert(s.subrange(0, 4) =~= spec_u32_to_le_bytes(v));
        },
        PartitionProperty::CpuidExitList(l) => {
            assert(s.subrange(0, 4) =~= spec_u32_to_le_bytes(l[0]));
            assert([l[0]] =~= l);
        },
        PartitionProperty::CpuidResultList(l) => {
            assert(s.subrange(0, 4) =~= spec_u32_to_le_bytes(l[0].function));
            assert(s.subrange(16, 20) =~= spec_u32_to_le_bytes(l[0].eax));
            assert(s.subrange(20, 24) =~= spec_u32_to_le_bytes(l[0].ebx));
            assert(s.subrange(24, 28) =~= spec_u32_to_le_bytes(l[0].ecx));
            assert(s.subrange(28, 32) =~= spec_u32_to_le_bytes(l[0].edx));
            assert([
                X64CpuidResult {
                    function: l[0].function,
                    eax: l[0].eax,
                    ebx: l[0].ebx,
                    ecx: l[0].ecx,
                    edx: l[0].edx,
                },
            ] =~= l);
        },
        PartitionProperty::CpuidResultList2(l) => {
            assert(s.subrange(0, 4) =~= spec_u32_to_le_bytes(l[0].function));
            assert(s.subrange(4, 8) =~= spec_u32_to_le_bytes(l[0].index));
            assert(s.subrange(8, 12) =~= spec_u32_to_le_bytes(l[0].vp_index));
            assert(s.subrange(12, 16) =~= spec_u32_to_le_bytes(l[0].flags.bits as u32));
            lemma_i32_u32_round_trip(l[0].flags.bits);
            assert(s.subrange(16, 20) =~= spec_u32_to_le_bytes(l[0].output.eax));
            assert(s.subrange(20, 24) =~= spec_u32_to_le_bytes(l[0].output.ebx));
            assert(s.subrange(24, 28) =~= spec_u32_to_le_bytes(l[0].output.ecx));
            assert(s.subrange(28, 32) =~= spec_u32_to_le_bytes(l[0].output.edx));
            assert(s.subrange(32, 36) =~= spec_u32_to_le_bytes(l[0].mask.eax));
            assert(s.subrange(36, 40) =~= spec_u32_to_le_bytes(l[0].mask.ebx));
            assert(s.subrange(40, 44) =~= spec_u32_to_le_bytes(l[0].mask.ecx));
            assert(s.subrange(44, 48) =~= spec_u32_to_le_bytes(l[0].mask.edx));
            assert([
                X64CpuidResult2 {
                    function: l[0].function,
                    index: l[0].index,
                    vp_index: l[0].vp_index,
                    flags: X64CpuidResult2Flags { bits: l[0].flags.bits },
                    output: CpuidOutput {
                        eax: l[0].output.eax,
                        ebx: l[0].output.ebx,
                        ecx: l[0].output.ecx,
                        edx: l[0].output.edx,
                    },
                    mask: CpuidOutput {
                        eax: l[0].mask.eax,
                        ebx: l[0].mask.ebx,
                        ecx: l[0].mask.ecx,
                        edx: l[0].mask.edx,
                    },
                },
            ] =~= l);
        },
        PartitionProperty::MsrActionList(l) => {
            assert(s.subrange(0, 4) =~= spec_u32_to_le_bytes(l[0].index));
            assert(s[4] == l[0].read_action);
            assert(s[5] == l[0].write_action);
            assert([
                MsrActionEntry {
                    index: l[0].index,
                    read_action: l[0].read_action,
                    write_action: l[0].write_action,
                },
            ] =~= l);
        },
        PartitionProperty::UnimplementedMsrAction(m) => {
            assert(s.subrange(0, 4) =~= spec_u32_to_le_bytes(m.spec_to_raw()));
        },
        PartitionProperty::ExceptionExitBitmap(v) => {
            assert(s.subrange(0, 8) =~= spec_u64_to_le_bytes(v));
        },
        PartitionProperty::LocalApicEmulationMode(m) => {
            assert(s.subrange(0, 4) =~= spec_u32_to_le_bytes(m.spec_to_raw()));
        },
        PartitionProperty::SeparateSecurityDomain(v) => {
            assert(s.subrange(0, 4) =~= spec_u32_to_le_bytes(if v { 1u32 } else { 0u32 }));
        },
        PartitionProperty::NestedVirtualization(v) => {
            assert(s.subrange(0, 4) =~= spec_u32_to_le_bytes(if v { 1u32 } else { 0u32 }));
        },
        PartitionProperty::X64MsrExitBitmap(v) => {
            assert(s.subrange(0, 8) =~= spec_u64_to_le_bytes(v.bits));
        },
        PartitionProperty::ProcessorClockFrequency(v) => {
            assert(s.subrange(0, 8) =~= spec_u64_to_le_bytes(v));
        },
        PartitionProperty::InterruptClockFrequency(v) => {
            assert(s.subrange(0, 8) =~= spec_u64_to_le_bytes(v));
        },
        PartitionProperty::ApicRemoteRead(v) => {
            assert(s.subrange(0, 4) =~= spec_u32_to_le_bytes(if v { 1u32 } else { 0u32 }));
        },
        PartitionProperty::ProcessorFeaturesBanks(b) => {
            assert(s.subrange(0, 4) =~= spec_u32_to_le_bytes(b.banks_count));
            assert(s.subrange(8, 16) =~= spec_u64_to_le_bytes(b.bank_0.bits));
            assert(s.subrange(16, 24) =~= spec_u64_to_le_bytes(b.bank_1.bits));
            assert(PartitionProperty::spec_from_union(p.spec_code(), s) == Ok::<
                PartitionProperty,
                Error,
            >(
                PartitionProperty::ProcessorFeaturesBanks(
                    ProcessorFeaturesBanks {
                        banks_count: b.banks_count,
                        bank_0: ProcessorFeatures { bits: b.bank_0.bits },
                        bank_1: ProcessorFeatures1 { bits: b.bank_1.bits },
                    },
                ),
            ));
        },
        PartitionProperty::ReferenceTime(v) => {
            assert(s.subrange(0, 8) =~= spec_u64_to_le_bytes(v));
        },
        PartitionProperty::PrimaryNumaNode(v) => {
            assert(s.subrange(0, 2) =~= spec_u16_to_le_bytes(v));
        },
        PartitionProperty::CpuReserve(v) => {
            assert(s.subrange(0, 4) =~= spec_u32_to_le_bytes(v));
        },
        PartitionProperty::CpuCap(v) => {
            assert(s.subrange(0, 4) =~= spec_u32_to_le_bytes(v));
        },
        PartitionProperty::CpuWeight(v) => {
            assert(s.subrange(0, 4) =~= spec_u32_to_le_bytes(v));
        },
        PartitionProperty::CpuGroupId(v) => {
            assert(s.subrange(0, 8) =~= spec_u64_to_le_bytes(v));
        },
        PartitionProperty::ProcessorFrequencyCap(v) => {
            assert(s.subrange(0, 4) =~= spec_u32_to_le_bytes(v));
        },
        PartitionProperty::AllowDeviceAssignment(v) => {
            assert(s.subrange(0, 4) =~= spec_u32_to_le_bytes(if v { 1u32 } else { 0u32 }));
        },
        PartitionProperty::ProcessorPerfmonFeatures(v) => {
            assert(s.subrange(0, 8) =~= spec_u64_to_le_bytes(v.bits));
        },
        PartitionProperty::DisableSmt(v) => {
            assert(s.subrange(0, 4) =~= spec_u32_to_le_bytes(if v { 1u32 } else { 0u32 }));
        },
    }
}

/// The result of the bounds check guarding virtual-processor creation:
/// creating processor `index` is allowed only when the committed processor
/// count is not a bound it violates.
pub open spec fn spec_check_vp_index(prop: PartitionProperty, index: u32) -> Result<(), Error> {
    match prop {
        PartitionProperty::ProcessorCount(count) => if index >= count {
            Err(Error::InvalidVpIndex(index, count))
        } else {
            Ok(())
        },
        _ => Ok(()),
    }
}

/// Guards virtual-processor creation against the committed processor
/// count, read back from the partition: an index at or beyond the count
/// is rejected with the exact `(index, count)` pair, before any native
/// call that could crash on it.
pub fn check_vp_index(prop: &PartitionProperty, index: u32) -> (r: Result<(), Error>)
    ensures
        r == spec_check_vp_index(*prop, index),
{
    match prop {
        PartitionProperty::ProcessorCount(count) => {
            if index >= *count {
                Err(Error::InvalidVpIndex(index, *count))
            } else {
                Ok(())
            }
        },
        _ => Ok(()),
    }
}

} // verus!
