//! A typed control layer over a hardware-assisted virtual-machine substrate.
//!
//! The native platform interface exposes partition configuration, virtual
//! processor state and run-exit information through C-style tagged unions
//! whose discriminant travels out of band.  This crate is the marshalling
//! and dispatch layer above that interface: every union is modelled as a
//! fixed-size little-endian byte payload, and a single authoritative table
//! per domain maps each discriminant to the one interpretation of those
//! bytes that is valid for it.  The encoders, decoders and dispatch tables
//! are verified; the raw platform entry points themselves are consumed by
//! an unverified shell that hands this crate plain bytes and plain values.

use vstd::bytes::{spec_u32_from_le_bytes, spec_u64_from_le_bytes};
use vstd::prelude::*;

use crate::flags::{CapabilityFeatures, ExtendedVmExits, ProcessorFeatures, ProcessorXsaveFeatures};
use crate::partition::PartitionProperty;
use crate::wire::{read_u32, read_u64, read_u8};

pub mod fields;
pub mod flags;
pub mod memory;
pub mod partition;
pub mod processor;
pub mod wire;

verus! {

/// Everything that can go wrong in this layer.
///
/// Failures returned by a native call are carried verbatim as the raw
/// status value; the remaining variants are raised by this crate before a
/// native call is ever made.
#[derive(Debug, Clone, Copy, PartialEq, Eq)]
pub enum Error {
    /// A native platform call failed with the given raw status value.
    Windows(i32),
    /// A size or count did not fit the integer width of a native call.
    TryFromIntError,
    /// The property may only be set before the partition is set up.
    IncompatiblePropertyAvailibility(PartitionProperty),
    /// A virtual-processor index at or beyond the configured processor
    /// count, as `(requested index, configured count)`.
    InvalidVpIndex(u32, u32),
    /// A register paired with a value of another register's shape: the
    /// native layer would silently reinterpret the bytes, so the pair is
    /// rejected before the call.
    MismatchedRegisterValue(processor::Register),
    /// A numeric discriminant outside the closed set this layer knows:
    /// the native layer and this crate have gone out of sync, and the
    /// payload must not be interpreted at all.
    UnrecognizedDiscriminant(u64),
}

/// The byte size of the native capability union.
pub const CAPABILITY_BYTES: usize = 8;

/// The vendor of the processor the hypervisor runs on.
#[derive(Debug, Copy, Clone, PartialEq, Eq, Hash)]
pub enum ProcessorVendor {
    Amd,
    Intel,
    Hygon,
}

impl ProcessorVendor {
    /// The vendor for a raw native value.
    pub open spec fn spec_from_raw(raw: u32) -> Result<ProcessorVendor, Error> {
        if raw == 0 {
            Ok(ProcessorVendor::Amd)
        } else if raw == 1 {
            Ok(ProcessorVendor::Intel)
        } else if raw == 2 {
            Ok(ProcessorVendor::Hygon)
        } else {
            Err(Error::UnrecognizedDiscriminant(raw as u64))
        }
    }

    /// Decodes a raw native vendor value; a value outside the closed set
    /// is an out-of-sync native layer, never coerced to a default.
    pub fn from_raw(raw: u32) -> (r: Result<ProcessorVendor, Error>)
        ensures
            r == ProcessorVendor::spec_from_raw(raw),
    {
        match raw {
            0 => Ok(ProcessorVendor::Amd),
            1 => Ok(ProcessorVendor::Intel),
            2 => Ok(ProcessorVendor::Hygon),
            _ => Err(Error::UnrecognizedDiscriminant(raw as u64)),
        }
    }

    /// The raw native value of this vendor.
    pub open spec fn spec_to_raw(self) -> u32 {
        match self {
            ProcessorVendor::Amd => 0,
            ProcessorVendor::Intel => 1,
            ProcessorVendor::Hygon => 2,
        }
    }

    /// Encodes this vendor as its raw native value.
    pub fn to_raw(&self) -> (r: u32)
        ensures
            r == self.spec_to_raw(),
    {
        match self {
            ProcessorVendor::Amd => 0,
            ProcessorVendor::Intel => 1,
            ProcessorVendor::Hygon => 2,
        }
    }
}

/// The discriminant of one capability query.
#[derive(Debug, Copy, Clone, PartialEq, Eq, Hash)]
pub enum CapabilityCode {
    HypervisorPresent,
    Features,
    ExtendedVmExits,
    ProcessorVendor,
    ProcessorFeatures,
    ProcessorClFlushSize,
    ProcessorXsaveFeatures,
}

impl CapabilityCode {
    /// The capability code for a raw native value.
    pub open spec fn spec_from_raw(raw: i32) -> Result<CapabilityCode, Error> {
        if raw == 0x0 {
            Ok(CapabilityCode::HypervisorPresent)
        } else if raw == 0x1 {
            Ok(CapabilityCode::Features)
        } else if raw == 0x2 {
            Ok(CapabilityCode::ExtendedVmExits)
        } else if raw == 0x1000 {
            Ok(CapabilityCode::ProcessorVendor)
        } else if raw == 0x1001 {
            Ok(CapabilityCode::ProcessorFeatures)
        } else if raw == 0x1002 {
            Ok(CapabilityCode::ProcessorClFlushSize)
        } else if raw == 0x1003 {
            Ok(CapabilityCode::ProcessorXsaveFeatures)
        } else {
            Err(Error::UnrecognizedDiscriminant(raw as u32 as u64))
        }
    }

    /// Decodes a raw native capability code.
    pub fn from_raw(raw: i32) -> (r: Result<CapabilityCode, Error>)
        ensures
            r == CapabilityCode::spec_from_raw(raw),
    {
        match raw {
            0x0 => Ok(CapabilityCode::HypervisorPresent),
            0x1 => Ok(CapabilityCode::Features),
            0x2 => Ok(CapabilityCode::ExtendedVmExits),
            0x1000 => Ok(CapabilityCode::ProcessorVendor),
            0x1001 => Ok(CapabilityCode::ProcessorFeatures),
            0x1002 => Ok(CapabilityCode::ProcessorClFlushSize),
            0x1003 => Ok(CapabilityCode::ProcessorXsaveFeatures),
            _ => Err(Error::UnrecognizedDiscriminant(raw as u32 as u64)),
        }
    }

    /// The raw native value of this capability code.
    pub open spec fn spec_to_raw(self) -> i32 {
        match self {
            CapabilityCode::HypervisorPresent => 0x0,
            CapabilityCode::Features => 0x1,
            CapabilityCode::ExtendedVmExits => 0x2,
            CapabilityCode::ProcessorVendor => 0x1000,
            CapabilityCode::ProcessorFeatures => 0x1001,
            CapabilityCode::ProcessorClFlushSize => 0x1002,
            CapabilityCode::ProcessorXsaveFeatures => 0x1003,
        }
    }

    /// Encodes this capability code as its raw native value.
    pub fn to_raw(&self) -> (r: i32)
        ensures
            r == self.spec_to_raw(),
    {
        match self {
            CapabilityCode::HypervisorPresent => 0x0,
            CapabilityCode::Features => 0x1,
            CapabilityCode::ExtendedVmExits => 0x2,
            CapabilityCode::ProcessorVendor => 0x1000,
            CapabilityCode::ProcessorFeatures => 0x1001,
            CapabilityCode::ProcessorClFlushSize => 0x1002,
            CapabilityCode::ProcessorXsaveFeatures => 0x1003,
        }
    }
}

/// One decoded capability, produced fresh per query.
#[derive(Debug, Clone, Copy, PartialEq, Eq)]
pub enum Capability {
    HypervisorPresent(bool),
    Features(CapabilityFeatures),
    ExtendedVmExits(ExtendedVmExits),
    ProcessorVendor(ProcessorVendor),
    ProcessorFeatures(ProcessorFeatures),
    ProcessorXsaveFeatures(ProcessorXsaveFeatures),
    ProcessorClFlushSize(u8),
}

impl Capability {
    /// The one valid interpretation of a raw capability payload for each
    /// capability code.
    pub open spec fn spec_from_union(code: CapabilityCode, s: Seq<u8>) -> Result<Capability, Error>
        recommends
            s.len() == CAPABILITY_BYTES,
    {
        match code {
            CapabilityCode::HypervisorPresent => Ok(
                Capability::HypervisorPresent(spec_u32_from_le_bytes(s.subrange(0, 4)) != 0),
            ),
            CapabilityCode::Features => Ok(
                Capability::Features(
                    CapabilityFeatures { bits: spec_u64_from_le_bytes(s.subrange(0, 8)) },
                ),
            ),
            CapabilityCode::ExtendedVmExits => Ok(
                Capability::ExtendedVmExits(
                    ExtendedVmExits { bits: spec_u64_from_le_bytes(s.subrange(0, 8)) },
                ),
            ),
            CapabilityCode::ProcessorVendor => match ProcessorVendor::spec_from_raw(
                spec_u32_from_le_bytes(s.subrange(0, 4)),
            ) {
                Ok(vendor) => Ok(Capability::ProcessorVendor(vendor)),
                Err(e) => Err(e),
            },
            CapabilityCode::ProcessorFeatures => Ok(
                Capability::ProcessorFeatures(
                    ProcessorFeatures { bits: spec_u64_from_le_bytes(s.subrange(0, 8)) },
                ),
            ),
            CapabilityCode::ProcessorClFlushSize => Ok(Capability::ProcessorClFlushSize(s[0])),
            CapabilityCode::ProcessorXsaveFeatures => Ok(
                Capability::ProcessorXsaveFeatures(
                    ProcessorXsaveFeatures { bits: spec_u64_from_le_bytes(s.subrange(0, 8)) },
                ),
            ),
        }
    }

    /// Decodes the raw capability payload the native layer produced for
    /// `code`, reading the bytes with the interpretation the code alone
    /// selects.
    pub fn from_union(code: CapabilityCode, raw: &Vec<u8>) -> (r: Result<Capability, Error>)
        requires
            raw@.len() == CAPABILITY_BYTES,
        ensures
            r == Capability::spec_from_union(code, raw@),
    {
        match code {
            CapabilityCode::HypervisorPresent => Ok(
                Capability::HypervisorPresent(read_u32(raw.as_slice(), 0) != 0),
            ),
            CapabilityCode::Features => Ok(
                Capability::Features(
                    CapabilityFeatures::from_bits_retain(read_u64(raw.as_slice(), 0)),
                ),
            ),
            CapabilityCode::ExtendedVmExits => Ok(
                Capability::ExtendedVmExits(
                    ExtendedVmExits::from_bits_retain(read_u64(raw.as_slice(), 0)),
                ),
            ),
            CapabilityCode::ProcessorVendor => {
                match ProcessorVendor::from_raw(read_u32(raw.as_slice(), 0)) {
                    Ok(vendor) => Ok(Capability::ProcessorVendor(vendor)),
                    Err(e) => Err(e),
                }
            },
            CapabilityCode::ProcessorFeatures => Ok(
                Capability::ProcessorFeatures(
                    ProcessorFeatures::from_bits_retain(read_u64(raw.as_slice(), 0)),
                ),
            ),
            CapabilityCode::ProcessorClFlushSize => Ok(
                Capability::ProcessorClFlushSize(read_u8(raw.as_slice(), 0)),
            ),
            CapabilityCode::ProcessorXsaveFeatures => Ok(
                Capability::ProcessorXsaveFeatures(
                    ProcessorXsaveFeatures::from_bits_retain(read_u64(raw.as_slice(), 0)),
                ),
            ),
        }
    }
}

} // verus!
