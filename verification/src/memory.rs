//! Guest-physical memory region descriptors.
//!
//! A region descriptor is a plain value: the host address and length of a
//! backing range, the guest address it is mapped at, the access flags, and
//! the kind of backing.  Obtaining the backing (an allocation or a file
//! view) and releasing it again are platform operations performed by the
//! unverified shell; the descriptor records which release operation is
//! owed so that the shell releases each backing exactly once, with the
//! operation that matches how it was obtained.

use vstd::prelude::*;

use crate::flags::MapGpaRangeFlags;

verus! {

/// How the host backing of a region was obtained, and therefore how it
/// must be released.
#[derive(Debug, Clone, Copy, PartialEq, Eq)]
pub enum RegionBacking {
    /// Not backed by anything other than the allocation itself.
    Volatile,
    /// Backed by a file on the filesystem.
    File,
}

/// The release operation a region's backing is owed when the descriptor
/// is dropped.
#[derive(Debug, Clone, Copy, PartialEq, Eq)]
pub enum ReleaseOperation {
    /// Free the allocation.
    Free,
    /// Unmap the file view.
    Unmap,
}

impl RegionBacking {
    /// The release operation that matches this backing.
    pub open spec fn spec_release_operation(self) -> ReleaseOperation {
        match self {
            RegionBacking::Volatile => ReleaseOperation::Free,
            RegionBacking::File => ReleaseOperation::Unmap,
        }
    }

    /// The one release operation a backing of this kind is owed: a volatile
    /// backing is freed, a file backing is unmapped, and never the other
    /// way around.
    pub fn release_operation(&self) -> (r: ReleaseOperation)
        ensures
            r == self.spec_release_operation(),
    {
        match self {
            RegionBacking::Volatile => ReleaseOperation::Free,
            RegionBacking::File => ReleaseOperation::Unmap,
        }
    }
}

/// One mapped guest-physical range.
///
/// The descriptor owns its host backing exclusively: no two descriptors
/// may describe overlapping host ranges, and the backing must be released
/// exactly once, when the descriptor is dropped, with the operation
/// `backing` selects.  Whether two regions overlap in guest-address space
/// is not validated by this layer; the native layer owns that check and
/// reports a mapping failure.
#[derive(Debug, PartialEq, Eq)]
pub struct MemoryRegion {
    /// The host address of the backing range.
    pub address: usize,
    /// The guest-physical address the range is mapped at.
    pub guest_address: usize,
    /// The guest's access to the range.
    pub flags: MapGpaRangeFlags,
    /// The length of the range in bytes.
    pub size: usize,
    /// How the backing was obtained and must be released.
    pub backing: RegionBacking,
}

impl MemoryRegion {
    /// Describes a range whose backing the caller has already obtained.
    pub fn new(
        address: usize,
        guest_address: usize,
        flags: MapGpaRangeFlags,
        size: usize,
        backing: RegionBacking,
    ) -> (r: MemoryRegion)
        ensures
            r.address == address,
            r.guest_address == guest_address,
            r.flags == flags,
            r.size == size,
            r.backing == backing,
    {
        MemoryRegion { address, guest_address, flags, size, backing }
    }

    /// The arguments of the native mapping call for this region: the host
    /// address, the guest address and length widened to the native call's
    /// 64-bit fields, and the raw flag bits.
    pub fn map_request(&self) -> (r: (usize, u64, u64, i32))
        ensures
            r.0 == self.address,
            r.1 == self.guest_address as u64,
            r.2 == self.size as u64,
            r.3 == self.flags.bits,
    {
        (self.address, self.guest_address as u64, self.size as u64, self.flags.bits)
    }
}

} // verus!
