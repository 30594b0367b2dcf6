//! Encode/decode round trips for every partition property variant.

use windows_hypervisor::flags::{
    ExtendedVmExits, ProcessorFeatures, ProcessorFeatures1, ProcessorPerfmonFeatures,
    ProcessorXsaveFeatures, SyntheticProcessorFeatures, X64CpuidResult2Flags, X64MsrExitBitmap,
};
use windows_hypervisor::partition::{
    CpuidOutput, MsrAction, MsrActionEntry, PartitionProperty, PartitionPropertyCode,
    ProcessorFeaturesBanks, SyntheticProcessorFeaturesBanks, X64CpuidResult, X64CpuidResult2,
    X64LocalApicEmulationMode, PARTITION_PROPERTY_BYTES,
};

fn round_trip(p: PartitionProperty) -> PartitionProperty {
    let code = p.code();
    let wire = p.to_union();
    assert_eq!(wire.len(), PARTITION_PROPERTY_BYTES);
    PartitionProperty::from_union(code, &wire).expect("a freshly encoded property must decode")
}

fn assert_round_trips(p: PartitionProperty) {
    assert_eq!(round_trip(p), p);
}

#[test]
fn round_trip_scalar_properties() {
    assert_round_trips(PartitionProperty::ProcessorCount(0));
    assert_round_trips(PartitionProperty::ProcessorCount(1));
    assert_round_trips(PartitionProperty::ProcessorCount(u32::MAX));
    assert_round_trips(PartitionProperty::ProcessorClFlushSize(0));
    assert_round_trips(PartitionProperty::ProcessorClFlushSize(u8::MAX));
    assert_round_trips(PartitionProperty::ExceptionExitBitmap(0));
    assert_round_trips(PartitionProperty::ExceptionExitBitmap(u64::MAX));
    assert_round_trips(PartitionProperty::ExceptionExitBitmap(0x8000_0000_0000_0001));
    assert_round_trips(PartitionProperty::ProcessorClockFrequency(2_400_000_000));
    assert_round_trips(PartitionProperty::InterruptClockFrequency(0));
    assert_round_trips(PartitionProperty::ReferenceTime(u64::MAX));
    assert_round_trips(PartitionProperty::PrimaryNumaNode(0));
    assert_round_trips(PartitionProperty::PrimaryNumaNode(u16::MAX));
    assert_round_trips(PartitionProperty::CpuReserve(12345));
    assert_round_trips(PartitionProperty::CpuCap(u32::MAX));
    assert_round_trips(PartitionProperty::CpuWeight(0));
    assert_round_trips(PartitionProperty::CpuGroupId(u64::MAX));
    assert_round_trips(PartitionProperty::ProcessorFrequencyCap(3_500));
}

#[test]
fn round_trip_boolean_properties() {
    for v in [false, true] {
        assert_round_trips(PartitionProperty::SeparateSecurityDomain(v));
        assert_round_trips(PartitionProperty::NestedVirtualization(v));
        assert_round_trips(PartitionProperty::ApicRemoteRead(v));
        assert_round_trips(PartitionProperty::AllowDeviceAssignment(v));
        assert_round_trips(PartitionProperty::DisableSmt(v));
    }
}

#[test]
fn round_trip_flag_properties() {
    for bits in [0u64, 1, 0x5555_5555_5555_5555, u64::MAX] {
        assert_round_trips(PartitionProperty::ExtendedVmExits(ExtendedVmExits::from_bits_retain(
            bits,
        )));
        assert_round_trips(PartitionProperty::ProcessorFeatures(
            ProcessorFeatures::from_bits_retain(bits),
        ));
        assert_round_trips(PartitionProperty::ProcessorXsaveFeatures(
            ProcessorXsaveFeatures::from_bits_retain(bits),
        ));
        assert_round_trips(PartitionProperty::X64MsrExitBitmap(
            X64MsrExitBitmap::from_bits_retain(bits),
        ));
        assert_round_trips(PartitionProperty::ProcessorPerfmonFeatures(
            ProcessorPerfmonFeatures::from_bits_retain(bits),
        ));
    }
}

#[test]
fn round_trip_enum_properties() {
    for m in [
        MsrAction::ArchitectureDefault,
        MsrAction::IgnoreWriteReadZero,
        MsrAction::Exit,
    ] {
        assert_round_trips(PartitionProperty::UnimplementedMsrAction(m));
    }
    for m in [
        X64LocalApicEmulationMode::Disabled,
        X64LocalApicEmulationMode::XApic,
        X64LocalApicEmulationMode::X2Apic,
    ] {
        assert_round_trips(PartitionProperty::LocalApicEmulationMode(m));
    }
}

#[test]
fn round_trip_bank_properties() {
    assert_round_trips(PartitionProperty::SyntheticProcessorFeaturesBanks(
        SyntheticProcessorFeaturesBanks {
            banks_count: 1,
            bank_0: SyntheticProcessorFeatures::from_bits_retain(0xDEAD_BEEF_0BAD_F00D),
        },
    ));
    assert_round_trips(PartitionProperty::ProcessorFeaturesBanks(ProcessorFeaturesBanks {
        banks_count: 2,
        bank_0: ProcessorFeatures::from_bits_retain(u64::MAX),
        bank_1: ProcessorFeatures1::from_bits_retain(0),
    }));
}

#[test]
fn round_trip_list_properties() {
    assert_round_trips(PartitionProperty::CpuidExitList([0x8000_0000]));
    assert_round_trips(PartitionProperty::CpuidResultList([X64CpuidResult {
        function: 1,
        eax: 0x000B_06A2,
        ebx: 0x0010_0800,
        ecx: 0x7FFA_FBFF,
        edx: 0xBFEB_FBFF,
    }]));
    assert_round_trips(PartitionProperty::CpuidResultList2([X64CpuidResult2 {
        function: 7,
        index: 1,
        vp_index: 3,
        flags: X64CpuidResult2Flags::from_bits_retain(-1),
        output: CpuidOutput { eax: 1, ebx: 2, ecx: 3, edx: 4 },
        mask: CpuidOutput {
            eax: u32::MAX,
            ebx: 0,
            ecx: u32::MAX,
            edx: 0,
        },
    }]));
    assert_round_trips(PartitionProperty::MsrActionList([MsrActionEntry {
        index: 0xC000_0080,
        read_action: 1,
        write_action: 2,
    }]));
}

#[test]
fn processor_count_wire_layout() {
    let p = PartitionProperty::ProcessorCount(0x0102_0304);
    assert_eq!(p.code(), PartitionPropertyCode::ProcessorCount);
    let wire = p.to_union();
    assert_eq!(&wire[0..4], &[0x04, 0x03, 0x02, 0x01]);
    assert!(wire[4..].iter().all(|&b| b == 0));
}

#[test]
fn boolean_decode_accepts_any_nonzero() {
    let mut wire = vec![0u8; PARTITION_PROPERTY_BYTES];
    wire[0] = 7;
    let p = PartitionProperty::from_union(PartitionPropertyCode::NestedVirtualization, &wire)
        .unwrap();
    assert_eq!(p, PartitionProperty::NestedVirtualization(true));
}

#[test]
fn unknown_msr_action_is_rejected() {
    let mut wire = vec![0u8; PARTITION_PROPERTY_BYTES];
    wire[0] = 9;
    let r = PartitionProperty::from_union(PartitionPropertyCode::UnimplementedMsrAction, &wire);
    assert_eq!(
        r,
        Err(windows_hypervisor::Error::UnrecognizedDiscriminant(9))
    );
}

#[test]
fn unknown_apic_emulation_mode_is_rejected() {
    let mut wire = vec![0u8; PARTITION_PROPERTY_BYTES];
    wire[0] = 0xFF;
    let r = PartitionProperty::from_union(PartitionPropertyCode::LocalApicEmulationMode, &wire);
    assert_eq!(
        r,
        Err(windows_hypervisor::Error::UnrecognizedDiscriminant(0xFF))
    );
}
