//! Register classification and the register value codec.

use windows_hypervisor::fields::{
    DeliverabilityNotificationsRegister, FpRegister, PendingExceptionEvent, PendingExtIntEvent,
    PendingInterruptionRegister,
};
use windows_hypervisor::flags::{InterruptStateRegister, X64SegmentRegisterAttributes};
use windows_hypervisor::processor::{
    decode_register_values, encode_register_names, encode_register_writes, Register, RegisterType,
    RegisterVal, SegmentRegister, TableRegister, X64FpControlStatusRegister,
    X64XmmControlStatusRegister, REGISTER_VALUE_BYTES,
};

fn representative_registers() -> Vec<(Register, RegisterType)> {
    vec![
        (Register::Rax, RegisterType::Reg64),
        (Register::Rip, RegisterType::Reg64),
        (Register::Cr3, RegisterType::Reg64),
        (Register::Dr7, RegisterType::Reg64),
        (Register::XCr0, RegisterType::Reg64),
        (Register::Tsc, RegisterType::Reg64),
        (Register::MsrMtrrFix4kF8000, RegisterType::Reg64),
        (Register::ApicIcr, RegisterType::Reg64),
        (Register::Sint15, RegisterType::Reg64),
        (Register::VpAssistPage, RegisterType::Reg64),
        (Register::InternalActivityState, RegisterType::Reg64),
        (Register::PendingDebugException, RegisterType::Reg64),
        (Register::Es, RegisterType::Segment),
        (Register::Tr, RegisterType::Segment),
        (Register::Idtr, RegisterType::Table),
        (Register::Gdtr, RegisterType::Table),
        (Register::Xmm0, RegisterType::Reg128),
        (Register::Xmm15, RegisterType::Reg128),
        (Register::FpMmx0, RegisterType::Fp),
        (Register::FpMmx7, RegisterType::Fp),
        (Register::FpControlStatus, RegisterType::FpControlStatus),
        (Register::XmmControlStatus, RegisterType::XmmControlStatus),
        (Register::PendingInterruption, RegisterType::PendingInterruption),
        (Register::InterruptState, RegisterType::InterruptState),
        (Register::PendingEvent, RegisterType::ExceptionEvent),
        (
            Register::DeliverabilityNotifications,
            RegisterType::DeliverabilityNotifications,
        ),
    ]
}

#[test]
fn classification_is_the_fixed_table() {
    for (register, expected) in representative_registers() {
        assert_eq!(register.ty(), expected, "classification of {register:?}");
    }
}

#[test]
fn decode_uses_the_register_type() {
    // One representative raw payload, decoded once per register type:
    // the variant must mirror the type, never the payload bytes.
    let raw: Vec<u8> = (1u8..=16).collect();
    for (register, ty) in representative_registers() {
        let val = RegisterVal::from_union(register.ty(), &raw);
        assert_eq!(val.ty(), ty, "decoded variant for {register:?}");
    }
}

fn assert_value_round_trips(v: RegisterVal) {
    let wire = v.to_union();
    assert_eq!(wire.len(), REGISTER_VALUE_BYTES);
    assert_eq!(RegisterVal::from_union(v.ty(), &wire), v);
}

#[test]
fn register_values_round_trip() {
    assert_value_round_trips(RegisterVal::Reg128(0xFFEE_DDCC_BBAA_9988_7766_5544_3322_1100));
    assert_value_round_trips(RegisterVal::Reg64(u64::MAX));
    assert_value_round_trips(RegisterVal::Reg32(0xDEAD_BEEF));
    assert_value_round_trips(RegisterVal::Reg16(0xBEEF));
    assert_value_round_trips(RegisterVal::Reg8(0x42));
    assert_value_round_trips(RegisterVal::Fp(FpRegister {
        mantissa: 0x8000_0000_0000_0000,
        bits: 0x3FFF,
    }));
    assert_value_round_trips(RegisterVal::FpControlStatus(X64FpControlStatusRegister {
        control: 0x037F,
        status: 0x0000,
        tag: 0xFF,
        last_op: 0x07D9,
        last_rip: 0x1234_5678_9ABC_DEF0,
    }));
    assert_value_round_trips(RegisterVal::XmmControlStatus(X64XmmControlStatusRegister {
        last_rdp: 0xAAAA_BBBB_CCCC_DDDD,
        status_control: 0x1F80,
        status_control_mask: 0xFFFF,
    }));
    assert_value_round_trips(RegisterVal::Segment(SegmentRegister {
        base: 0xFFFF_0000,
        limit: 0xF_FFFF,
        selector: 0x10,
        attributes: X64SegmentRegisterAttributes::from_bits_retain(0x0093),
    }));
    assert_value_round_trips(RegisterVal::Table(TableRegister {
        pad: [1, 2, 3],
        limit: 0x3FF,
        base: 0x0000_7FFF_FFFF_E000,
    }));
    assert_value_round_trips(RegisterVal::InterruptState(
        InterruptStateRegister::from_bits_retain(3),
    ));
    assert_value_round_trips(RegisterVal::PendingInterruption(PendingInterruptionRegister {
        bits: 0x0000_000E_0000_0231,
    }));
    assert_value_round_trips(RegisterVal::DeliverabilityNotifications(
        DeliverabilityNotificationsRegister {
            bits: 0x8000_0000_0000_0003,
        },
    ));
    assert_value_round_trips(RegisterVal::ExceptionEvent(PendingExceptionEvent {
        bits: 0x000E_0101,
        error_code: 0xDEAD,
        exception_param: 0xCAFE_BABE,
    }));
    assert_value_round_trips(RegisterVal::ExtIntEvent(PendingExtIntEvent { bits: 0x2101 }));
}

#[test]
fn reg64_wire_is_little_endian_with_zero_tail() {
    let wire = RegisterVal::Reg64(0x0102_0304_0506_0708).to_union();
    assert_eq!(
        wire,
        vec![0x08, 0x07, 0x06, 0x05, 0x04, 0x03, 0x02, 0x01, 0, 0, 0, 0, 0, 0, 0, 0]
    );
}

#[test]
fn batch_names_keep_caller_order() {
    let names = encode_register_names(&vec![Register::Rip, Register::Rax, Register::Cs]);
    assert_eq!(names, vec![0x10, 0x0, 0x13]);
}

#[test]
fn batch_write_concatenates_value_blocks() {
    let pairs = vec![
        (Register::Rip, RegisterVal::Reg64(0xFFF0)),
        (Register::Rax, RegisterVal::Reg64(1)),
    ];
    let (names, bytes) = encode_register_writes(&pairs).unwrap();
    assert_eq!(names, vec![0x10, 0x0]);
    assert_eq!(bytes.len(), 32);
    assert_eq!(&bytes[0..2], &[0xF0, 0xFF]);
    assert!(bytes[2..16].iter().all(|&b| b == 0));
    assert_eq!(bytes[16], 1);
    assert!(bytes[17..32].iter().all(|&b| b == 0));
}

#[test]
fn batch_read_decodes_each_block_with_its_register() {
    let registers = vec![Register::Rax, Register::Es];
    let mut raw = vec![0u8; 32];
    raw[0..8].copy_from_slice(&0xBEEFu64.to_le_bytes());
    raw[16..24].copy_from_slice(&0x1000u64.to_le_bytes()); // es base
    raw[28..30].copy_from_slice(&0x8u16.to_le_bytes()); // es selector
    let decoded = decode_register_values(&registers, &raw);
    assert_eq!(decoded.len(), 2);
    assert_eq!(decoded[0].0, Register::Rax);
    assert_eq!(decoded[0].1, RegisterVal::Reg64(0xBEEF));
    assert_eq!(decoded[1].0, Register::Es);
    match decoded[1].1 {
        RegisterVal::Segment(seg) => {
            assert_eq!(seg.base, 0x1000);
            assert_eq!(seg.selector, 0x8);
        }
        other => panic!("wrong variant: {other:?}"),
    }
}

#[test]
fn packed_register_accessors_extract_the_documented_bits() {
    let pending = PendingInterruptionRegister {
        bits: (1) | (0x3 << 1) | (1 << 4) | (0x5 << 5) | (0xBEEF << 16) | (0xDEAD_0000 << 32),
    };
    assert!(pending.interruption_pending());
    assert_eq!(pending.interruption_type(), 3);
    assert!(pending.deliver_error_code());
    assert_eq!(pending.instruction_len(), 5);
    assert!(!pending.nested_event());
    assert_eq!(pending.interruption_vector(), 0xBEEF);
    assert_eq!(pending.error_code(), 0xDEAD_0000);

    let notify = DeliverabilityNotificationsRegister {
        bits: (1) | (1 << 1) | (0x9 << 2) | (0xF00F << 48),
    };
    assert!(notify.nmi_notification());
    assert!(notify.interrupt_notification());
    assert_eq!(notify.interruption_priority(), 9);
    assert_eq!(notify.sint(), 0xF00F);

    let event = PendingExceptionEvent {
        bits: (1) | (0x2 << 1) | (1 << 8) | (0x0E << 16),
        error_code: 0x10,
        exception_param: 0xFFFF_FFFF_FFFF_FFFF,
    };
    assert!(event.event_pending());
    assert_eq!(event.event_type(), 2);
    assert!(event.deliver_error_code());
    assert_eq!(event.vector(), 0x0E);

    let ext_int = PendingExtIntEvent {
        bits: (1) | (0x5 << 1) | (0xA7 << 8),
    };
    assert!(ext_int.event_pending());
    assert_eq!(ext_int.event_type(), 5);
    assert_eq!(ext_int.vector(), 0xA7);

    let fp = FpRegister {
        mantissa: 0,
        bits: 0x8000 | 0x3F0F,
    };
    assert_eq!(fp.biased_exponent(), 0x3F0F);
    assert!(fp.sign());
}
