//! Partition lifecycle gates: property availability, processor-index
//! bounds, capability decoding and region bookkeeping.

use windows_hypervisor::flags::MapGpaRangeFlags;
use windows_hypervisor::memory::{MemoryRegion, RegionBacking, ReleaseOperation};
use windows_hypervisor::partition::{
    check_vp_index, PartitionProperty, PartitionPropertyAvailability, PartitionPropertyCode,
    PARTITION_PROPERTY_BYTES,
};
use windows_hypervisor::{Capability, CapabilityCode, Error, ProcessorVendor, CAPABILITY_BYTES};

#[test]
fn before_setup_property_is_rejected_after_setup() {
    let p = PartitionProperty::ProcessorCount(4);
    assert_eq!(p.availibility(), PartitionPropertyAvailability::BeforeSetup);
    assert_eq!(
        p.set_request_after_setup(),
        Err(Error::IncompatiblePropertyAvailibility(p))
    );
}

#[test]
fn before_setup_property_encodes_for_the_builder() {
    // Through the builder the same property is simply encoded and sent.
    let p = PartitionProperty::ProcessorCount(4);
    assert_eq!(p.code(), PartitionPropertyCode::ProcessorCount);
    let wire = p.to_union();
    assert_eq!(wire.len(), PARTITION_PROPERTY_BYTES);
    assert_eq!(PartitionProperty::from_union(p.code(), &wire), Ok(p));
}

#[test]
fn after_setup_property_passes_the_gate() {
    let p = PartitionProperty::CpuWeight(100);
    assert_eq!(p.availibility(), PartitionPropertyAvailability::AfterSetup);
    let (code, wire) = p.set_request_after_setup().unwrap();
    assert_eq!(code, PartitionPropertyCode::CpuWeight);
    assert_eq!(PartitionProperty::from_union(code, &wire), Ok(p));
}

#[test]
fn availability_distinguishes_scheduling_knobs() {
    let before = [
        PartitionProperty::ProcessorCount(1),
        PartitionProperty::NestedVirtualization(true),
        PartitionProperty::ProcessorClFlushSize(64),
    ];
    for p in before {
        assert_eq!(p.availibility(), PartitionPropertyAvailability::BeforeSetup);
    }
    let after = [
        PartitionProperty::CpuReserve(10),
        PartitionProperty::CpuCap(90),
        PartitionProperty::ReferenceTime(0),
        PartitionProperty::PrimaryNumaNode(0),
    ];
    for p in after {
        assert_eq!(p.availibility(), PartitionPropertyAvailability::AfterSetup);
    }
}

#[test]
fn vp_index_at_count_is_out_of_range() {
    let count = PartitionProperty::ProcessorCount(4);
    assert_eq!(check_vp_index(&count, 4), Err(Error::InvalidVpIndex(4, 4)));
}

#[test]
fn vp_index_beyond_count_is_out_of_range() {
    let count = PartitionProperty::ProcessorCount(4);
    assert_eq!(check_vp_index(&count, 5), Err(Error::InvalidVpIndex(5, 4)));
    assert_eq!(
        check_vp_index(&count, u32::MAX),
        Err(Error::InvalidVpIndex(u32::MAX, 4))
    );
}

#[test]
fn vp_index_below_count_is_accepted() {
    let count = PartitionProperty::ProcessorCount(4);
    assert_eq!(check_vp_index(&count, 3), Ok(()));
    assert_eq!(check_vp_index(&count, 0), Ok(()));
}

#[test]
fn each_backing_owes_its_own_release_operation() {
    assert_eq!(
        RegionBacking::Volatile.release_operation(),
        ReleaseOperation::Free
    );
    assert_eq!(RegionBacking::File.release_operation(), ReleaseOperation::Unmap);
}

#[test]
fn map_request_carries_the_descriptor_fields() {
    let flags = MapGpaRangeFlags::read().union(MapGpaRangeFlags::execute());
    let region = MemoryRegion::new(0x7F00_0000_0000, 0xF0000, flags, 0x10000, RegionBacking::Volatile);
    let (host, guest, size, raw_flags) = region.map_request();
    assert_eq!(host, 0x7F00_0000_0000);
    assert_eq!(guest, 0xF0000);
    assert_eq!(size, 0x10000);
    assert_eq!(raw_flags, 0x5);
}

#[test]
fn capability_payloads_decode_by_code() {
    let mut wire = vec![0u8; CAPABILITY_BYTES];
    wire[0] = 1;
    assert_eq!(
        Capability::from_union(CapabilityCode::HypervisorPresent, &wire),
        Ok(Capability::HypervisorPresent(true))
    );
    assert_eq!(
        Capability::from_union(CapabilityCode::ProcessorVendor, &wire),
        Ok(Capability::ProcessorVendor(ProcessorVendor::Intel))
    );
    assert_eq!(
        Capability::from_union(CapabilityCode::ProcessorClFlushSize, &wire),
        Ok(Capability::ProcessorClFlushSize(1))
    );
    let features = Capability::from_union(CapabilityCode::Features, &wire).unwrap();
    match features {
        Capability::Features(f) => assert_eq!(f.bits, 1),
        other => panic!("wrong variant: {other:?}"),
    }
}

#[test]
fn unknown_processor_vendor_is_rejected() {
    let mut wire = vec![0u8; CAPABILITY_BYTES];
    wire[0] = 3;
    assert_eq!(
        Capability::from_union(CapabilityCode::ProcessorVendor, &wire),
        Err(Error::UnrecognizedDiscriminant(3))
    );
}

#[test]
fn capability_codes_invert() {
    for raw in [0x0, 0x1, 0x2, 0x1000, 0x1001, 0x1002, 0x1003] {
        assert_eq!(CapabilityCode::from_raw(raw).unwrap().to_raw(), raw);
    }
    assert_eq!(
        CapabilityCode::from_raw(0x7),
        Err(Error::UnrecognizedDiscriminant(0x7))
    );
}

#[test]
fn property_codes_match_the_native_table() {
    assert_eq!(PartitionPropertyCode::ExtendedVmExits.to_raw(), 0x1);
    assert_eq!(PartitionPropertyCode::DisableSmt.to_raw(), 0xD);
    assert_eq!(PartitionPropertyCode::ProcessorFeatures.to_raw(), 0x1001);
    assert_eq!(PartitionPropertyCode::UnimplementedMsrAction.to_raw(), 0x1010);
    assert_eq!(PartitionPropertyCode::ProcessorCount.to_raw(), 0x1FFF);
}
