//! The library's half of a whole run: configure one processor, describe a
//! guest code region, point the instruction pointer at it, interpret the
//! halt exit, and read the result register.  The native substrate's part
//! — executing the guest — is represented by the exact byte images it
//! would produce.

use windows_hypervisor::flags::MapGpaRangeFlags;
use windows_hypervisor::memory::{MemoryRegion, RegionBacking};
use windows_hypervisor::partition::{check_vp_index, PartitionProperty, PartitionPropertyCode};
use windows_hypervisor::processor::{
    decode_register_values, encode_register_writes, Register, RegisterVal, RunExitContext,
    RunExitReason, RUN_EXIT_CONTEXT_BYTES,
};

#[test]
fn single_processor_halt_run() {
    // Commit a one-processor configuration.
    let count = PartitionProperty::ProcessorCount(1);
    let wire = count.to_union();
    assert_eq!(
        PartitionProperty::from_union(PartitionPropertyCode::ProcessorCount, &wire),
        Ok(count)
    );

    // A 64 KiB halt-filled code buffer with "zero EAX, move 0xBEEF into
    // EAX" at the reset-style entry point.
    let mut code = vec![0xF4u8; 65536];
    code[0xFFF0..0xFFF6].copy_from_slice(&[0x31, 0xC0, 0x66, 0xB8, 0xEF, 0xBE]);
    let region = MemoryRegion::new(
        code.as_ptr() as usize,
        0xF0000,
        MapGpaRangeFlags::read().union(MapGpaRangeFlags::execute()),
        code.len(),
        RegionBacking::Volatile,
    );
    let (host, guest, size, flags) = region.map_request();
    assert_eq!(host, code.as_ptr() as usize);
    assert_eq!(guest, 0xF0000);
    assert_eq!(size, 65536);
    assert_eq!(flags, 0x5);

    // Processor 0 exists under a count of one; processor 1 would not.
    assert_eq!(check_vp_index(&count, 0), Ok(()));
    assert!(check_vp_index(&count, 1).is_err());

    // Point the instruction pointer at the entry point.
    let writes = vec![(Register::Rip, RegisterVal::Reg64(0xFFF0))];
    let (names, values) = encode_register_writes(&writes).unwrap();
    assert_eq!(names, vec![0x10]);
    assert_eq!(&values[0..2], &[0xF0, 0xFF]);

    // The guest executes both instructions and runs into the halt filler;
    // the substrate reports a halt exit, which carries no extension.
    let mut exit = vec![0u8; RUN_EXIT_CONTEXT_BYTES];
    exit[0..4].copy_from_slice(&RunExitReason::X64Halt.to_raw().to_le_bytes());
    exit[32..40].copy_from_slice(&0xFFF7u64.to_le_bytes());
    let ctx = RunExitContext::from_union(&exit).unwrap();
    assert_eq!(ctx.exit_reason, RunExitReason::X64Halt);
    assert!(ctx.ext.is_none());

    // Read back RAX: its low 16 bits hold the moved value.
    let mut rax_bytes = vec![0u8; 16];
    rax_bytes[0..8].copy_from_slice(&0xBEEFu64.to_le_bytes());
    let regs = decode_register_values(&vec![Register::Rax], &rax_bytes);
    match regs[0].1 {
        RegisterVal::Reg64(v) => assert_eq!(v & 0xFFFF, 0xBEEF),
        other => panic!("RAX must decode as a 64-bit value, got {other:?}"),
    }
}
