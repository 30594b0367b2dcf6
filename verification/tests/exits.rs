//! Exit-reason dispatch: the reason-to-extension table, exact payload
//! decoding, and rejection of unknown discriminants.

use windows_hypervisor::processor::{
    ApicWriteType, PendingInterruptionType, Register, RegisterVal, RunExitContext,
    RunExitContextExt, RunExitReason, UnsupportedFeatureCode, VpCancelReason,
    RUN_EXIT_CONTEXT_BYTES, RUN_EXIT_EXTENSION_OFFSET,
};
use windows_hypervisor::Error;

fn exit_buffer(reason_raw: u32, ext: &[u8]) -> Vec<u8> {
    let mut buf = vec![0u8; RUN_EXIT_CONTEXT_BYTES];
    buf[0..4].copy_from_slice(&reason_raw.to_le_bytes());
    buf[RUN_EXIT_EXTENSION_OFFSET..RUN_EXIT_EXTENSION_OFFSET + ext.len()].copy_from_slice(ext);
    buf
}

#[test]
fn every_reason_pairs_with_its_designated_extension() {
    // (reason, a minimal valid extension image, whether an extension is due)
    let table: Vec<(RunExitReason, Vec<u8>, bool)> = vec![
        (RunExitReason::NoReason, vec![], false),
        (RunExitReason::MemoryAccess, vec![], true),
        (RunExitReason::X64IoPortAccess, vec![], true),
        (RunExitReason::UnrecoverableException, vec![], false),
        (RunExitReason::InvalidVpRegisterValue, vec![], false),
        (RunExitReason::UnsupportedFeature, vec![1], true),
        (RunExitReason::X64InterruptWindow, vec![], true),
        (RunExitReason::X64Halt, vec![], false),
        (RunExitReason::X64ApicEoi, vec![], true),
        (RunExitReason::SynicSintDeliverable, vec![], true),
        (RunExitReason::X64MsrAccess, vec![], true),
        (RunExitReason::X64Cpuid, vec![], true),
        (RunExitReason::Exception, vec![], true),
        (RunExitReason::X64Rdtsc, vec![], true),
        (RunExitReason::X64ApicSmiTrap, vec![], true),
        (RunExitReason::Hypercall, vec![], true),
        (RunExitReason::X64ApicInitSipiTrap, vec![], true),
        (RunExitReason::X64ApicWriteTrap, vec![0xD0], true),
        (RunExitReason::Canceled, vec![], true),
    ];
    assert_eq!(table.len(), 19);
    for (reason, ext_image, carries) in table {
        let buf = exit_buffer(reason.to_raw(), &ext_image);
        let ctx = RunExitContext::from_union(&buf).expect("decode must succeed");
        assert_eq!(ctx.exit_reason, reason);
        assert_eq!(ctx.ext.is_some(), carries, "extension presence for {reason:?}");
        if let Some(ext) = ctx.ext {
            let matches_reason = match (reason, ext) {
                (RunExitReason::MemoryAccess, RunExitContextExt::MemoryAccess(_)) => true,
                (RunExitReason::X64IoPortAccess, RunExitContextExt::IoPortAccess(_)) => true,
                (RunExitReason::UnsupportedFeature, RunExitContextExt::UnsupportedFeature(_)) => {
                    true
                }
                (RunExitReason::X64InterruptWindow, RunExitContextExt::InterruptWindow(_)) => true,
                (RunExitReason::X64ApicEoi, RunExitContextExt::ApicEoi(_)) => true,
                (
                    RunExitReason::SynicSintDeliverable,
                    RunExitContextExt::SynicSintDeliverable(_),
                ) => true,
                (RunExitReason::X64MsrAccess, RunExitContextExt::MsrAccess(_)) => true,
                (RunExitReason::X64Cpuid, RunExitContextExt::CpuidAccess(_)) => true,
                (RunExitReason::Exception, RunExitContextExt::VpException(_)) => true,
                (RunExitReason::X64Rdtsc, RunExitContextExt::ReadTsc(_)) => true,
                (RunExitReason::X64ApicSmiTrap, RunExitContextExt::ApicSmi(_)) => true,
                (RunExitReason::Hypercall, RunExitContextExt::Hypercall(_)) => true,
                (RunExitReason::X64ApicInitSipiTrap, RunExitContextExt::ApicInitSipi(_)) => true,
                (RunExitReason::X64ApicWriteTrap, RunExitContextExt::ApicWrite(_)) => true,
                (RunExitReason::Canceled, RunExitContextExt::CancelReason(_)) => true,
                _ => false,
            };
            assert!(matches_reason, "extension variant for {reason:?}");
        }
    }
}

#[test]
fn unknown_exit_reason_is_fatal() {
    let buf = exit_buffer(0x3, &[]);
    assert_eq!(
        RunExitContext::from_union(&buf),
        Err(Error::UnrecognizedDiscriminant(0x3))
    );
}

#[test]
fn unknown_apic_write_type_is_fatal() {
    let buf = exit_buffer(RunExitReason::X64ApicWriteTrap.to_raw(), &[0x42]);
    assert_eq!(
        RunExitContext::from_union(&buf),
        Err(Error::UnrecognizedDiscriminant(0x42))
    );
}

#[test]
fn unknown_cancel_reason_is_fatal() {
    let buf = exit_buffer(RunExitReason::Canceled.to_raw(), &[5]);
    assert_eq!(
        RunExitContext::from_union(&buf),
        Err(Error::UnrecognizedDiscriminant(5))
    );
}

#[test]
fn memory_access_payload_decodes_exactly() {
    let mut ext = vec![0u8; 40];
    ext[0] = 3; // instruction byte count
    ext[4] = 0x88; // first instruction byte
    ext[5] = 0x07;
    ext[20..24].copy_from_slice(&0x0000_0002u32.to_le_bytes()); // access info
    ext[24..32].copy_from_slice(&0x0000_0000_000F_0000u64.to_le_bytes()); // gpa
    ext[32..40].copy_from_slice(&0xFFFF_8000_0000_0000u64.to_le_bytes()); // gva
    let buf = exit_buffer(RunExitReason::MemoryAccess.to_raw(), &ext);
    let ctx = RunExitContext::from_union(&buf).unwrap();
    match ctx.ext {
        Some(RunExitContextExt::MemoryAccess(m)) => {
            assert_eq!(m.instruction_byte_count, 3);
            assert_eq!(m.instruction_bytes[0], 0x88);
            assert_eq!(m.instruction_bytes[1], 0x07);
            assert_eq!(m.access_info.bits, 2);
            assert_eq!(m.gpa, 0xF_0000);
            assert_eq!(m.gva, 0xFFFF_8000_0000_0000);
        }
        other => panic!("wrong extension: {other:?}"),
    }
}

#[test]
fn io_port_access_payload_decodes_exactly() {
    let mut ext = vec![0u8; 96];
    ext[24..26].copy_from_slice(&0x3F8u16.to_le_bytes()); // port number
    ext[32..40].copy_from_slice(&0x61u64.to_le_bytes()); // rax
    ext[64..72].copy_from_slice(&0x1000u64.to_le_bytes()); // ds base
    let buf = exit_buffer(RunExitReason::X64IoPortAccess.to_raw(), &ext);
    let ctx = RunExitContext::from_union(&buf).unwrap();
    match ctx.ext {
        Some(RunExitContextExt::IoPortAccess(io)) => {
            assert_eq!(io.port_number, 0x3F8);
            assert_eq!(io.rax, 0x61);
            assert_eq!(io.ds.base, 0x1000);
        }
        other => panic!("wrong extension: {other:?}"),
    }
}

#[test]
fn msr_access_payload_decodes_exactly() {
    let mut ext = vec![0u8; 24];
    ext[0] = 1; // write access
    ext[4..8].copy_from_slice(&0xC000_0080u32.to_le_bytes());
    ext[8..16].copy_from_slice(&0xD01u64.to_le_bytes());
    ext[16..24].copy_from_slice(&0x0u64.to_le_bytes());
    let buf = exit_buffer(RunExitReason::X64MsrAccess.to_raw(), &ext);
    let ctx = RunExitContext::from_union(&buf).unwrap();
    match ctx.ext {
        Some(RunExitContextExt::MsrAccess(m)) => {
            assert_eq!(m.access_info.bits, 1);
            assert_eq!(m.msr_number, 0xC000_0080);
            assert_eq!(m.rax, 0xD01);
            assert_eq!(m.rdx, 0);
        }
        other => panic!("wrong extension: {other:?}"),
    }
}

#[test]
fn hypercall_payload_decodes_exactly() {
    let mut ext = vec![0u8; 176];
    ext[0..8].copy_from_slice(&0x11u64.to_le_bytes()); // rax
    ext[48..56].copy_from_slice(&0x77u64.to_le_bytes()); // rdi
    ext[64..80].copy_from_slice(&0xAABB_CCDD_EEFF_0011_2233_4455_6677_8899u128.to_le_bytes());
    let buf = exit_buffer(RunExitReason::Hypercall.to_raw(), &ext);
    let ctx = RunExitContext::from_union(&buf).unwrap();
    match ctx.ext {
        Some(RunExitContextExt::Hypercall(h)) => {
            assert_eq!(h.rax, 0x11);
            assert_eq!(h.rdi, 0x77);
            assert_eq!(h.xmm_registers[0], 0xAABB_CCDD_EEFF_0011_2233_4455_6677_8899);
            assert_eq!(h.xmm_registers[5], 0);
        }
        other => panic!("wrong extension: {other:?}"),
    }
}

#[test]
fn architectural_context_decodes_exactly() {
    let mut buf = vec![0u8; RUN_EXIT_CONTEXT_BYTES];
    buf[0..4].copy_from_slice(&RunExitReason::X64Halt.to_raw().to_le_bytes());
    buf[8..10].copy_from_slice(&0x2004u16.to_le_bytes()); // execution state
    buf[10] = 0x52; // instruction length 2, cr8 5
    buf[16..24].copy_from_slice(&0xFFFF_0000u64.to_le_bytes()); // cs base
    buf[24..28].copy_from_slice(&0xFFFFu32.to_le_bytes()); // cs limit
    buf[28..30].copy_from_slice(&0xF000u16.to_le_bytes()); // cs selector
    buf[30..32].copy_from_slice(&0x009Bu16.to_le_bytes()); // cs attributes
    buf[32..40].copy_from_slice(&0xFFF2u64.to_le_bytes()); // rip
    buf[40..48].copy_from_slice(&0x2u64.to_le_bytes()); // rflags
    let ctx = RunExitContext::from_union(&buf).unwrap();
    assert_eq!(ctx.exit_reason, RunExitReason::X64Halt);
    assert_eq!(ctx.context.execution_state.bits, 0x2004);
    assert_eq!(ctx.context.instruction_len(), 2);
    assert_eq!(ctx.context.cr8(), 5);
    assert_eq!(ctx.context.cs.base, 0xFFFF_0000);
    assert_eq!(ctx.context.cs.limit, 0xFFFF);
    assert_eq!(ctx.context.cs.selector, 0xF000);
    assert_eq!(ctx.context.cs.attributes.bits, 0x009B);
    assert_eq!(ctx.context.rip, 0xFFF2);
    assert_eq!(ctx.context.rflags, 0x2);
    assert!(ctx.ext.is_none());
}

#[test]
fn discriminant_codecs_invert() {
    for reason_raw in [
        0x0u32, 0x1, 0x2, 0x4, 0x5, 0x6, 0x7, 0x8, 0x9, 0xA, 0x1000, 0x1001, 0x1002, 0x1003,
        0x1004, 0x1005, 0x1006, 0x1007, 0x2001,
    ] {
        let reason = RunExitReason::from_raw(reason_raw).unwrap();
        assert_eq!(reason.to_raw(), reason_raw);
    }
    for raw in [1u32, 2] {
        assert_eq!(UnsupportedFeatureCode::from_raw(raw).unwrap().to_raw(), raw);
    }
    for raw in [0u32, 2, 3] {
        assert_eq!(PendingInterruptionType::from_raw(raw).unwrap().to_raw(), raw);
    }
    for raw in [0xD0u32, 0xE0, 0xF0, 0x350, 0x360] {
        assert_eq!(ApicWriteType::from_raw(raw).unwrap().to_raw(), raw);
    }
    assert_eq!(VpCancelReason::from_raw(0).unwrap().to_raw(), 0);
    assert_eq!(
        PendingInterruptionType::from_raw(1),
        Err(Error::UnrecognizedDiscriminant(1))
    );
}

#[test]
fn register_names_mirror_the_native_table() {
    assert_eq!(Register::Rax.to_raw(), 0x0);
    assert_eq!(Register::Rip.to_raw(), 0x10);
    assert_eq!(Register::Cs.to_raw(), 0x13);
    assert_eq!(Register::Xmm0.to_raw(), 0x1000);
    assert_eq!(Register::Tsc.to_raw(), 0x2000);
    assert_eq!(Register::ApicId.to_raw(), 0x3002);
    assert_eq!(Register::Sint0.to_raw(), 0x4000);
    assert_eq!(Register::VpRuntime.to_raw(), 0x5000);
    assert_eq!(Register::PendingInterruption.to_raw(), 0x8000_0000);
    assert_eq!(Register::PendingDebugException.to_raw(), 0x8000_0006);
}

#[test]
fn mismatched_register_write_never_reaches_the_wire() {
    let pairs = vec![(Register::Rax, RegisterVal::Reg32(5))];
    let r = windows_hypervisor::processor::encode_register_writes(&pairs);
    assert_eq!(r, Err(Error::MismatchedRegisterValue(Register::Rax)));
}
