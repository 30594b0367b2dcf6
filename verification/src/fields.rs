//! Packed multi-field register values.
//!
//! These registers travel as one or two machine words whose sub-fields sit
//! at fixed bit positions.  Each type stores the raw words and exposes one
//! accessor per sub-field; the accessor's contract is the exact shift-and-
//! mask extraction, so callers reason about the documented bit layout and
//! nothing else.

use vstd::prelude::*;

verus! {

/// One x87 floating-point/MMX register: a 64-bit mantissa word and a second
/// word holding the biased exponent (bits 0..=14) and the sign (bit 15).
#[derive(Debug, Clone, Copy, PartialEq, Eq)]
pub struct FpRegister {
    pub mantissa: u64,
    pub bits: u64,
}

impl FpRegister {
    /// The 15-bit biased exponent, bits 0..=14 of the second word.
    pub fn biased_exponent(&self) -> (r: u16)
        ensures
            r == (self.bits & 0x7fff) as u16,
    {
        (self.bits & 0x7fff) as u16
    }

    /// The sign, bit 15 of the second word.
    pub fn sign(&self) -> (r: bool)
        ensures
            r == ((self.bits >> 15) & 1 == 1),
    {
        (self.bits >> 15) & 1 == 1
    }
}

/// The pending-interruption register: one 64-bit word.
/// Bit 0 pending; bits 1..=3 type; bit 4 deliver-error-code; bits 5..=8
/// instruction length; bit 9 nested event; bits 16..=31 vector; bits
/// 32..=63 error code.
#[derive(Debug, Clone, Copy, PartialEq, Eq)]
pub struct PendingInterruptionRegister {
    pub bits: u64,
}

impl PendingInterruptionRegister {
    /// Bit 0: an interruption is pending.
    pub fn interruption_pending(&self) -> (r: bool)
        ensures
            r == (self.bits & 1 == 1),
    {
        self.bits & 1 == 1
    }

    /// Bits 1..=3: the interruption type.
    pub fn interruption_type(&self) -> (r: u8)
        ensures
            r == ((self.bits >> 1) & 0x7) as u8,
    {
        ((self.bits >> 1) & 0x7) as u8
    }

    /// Bit 4: an error code is delivered with the interruption.
    pub fn deliver_error_code(&self) -> (r: bool)
        ensures
            r == ((self.bits >> 4) & 1 == 1),
    {
        (self.bits >> 4) & 1 == 1
    }

    /// Bits 5..=8: the instruction length.
    pub fn instruction_len(&self) -> (r: u8)
        ensures
            r == ((self.bits >> 5) & 0xf) as u8,
    {
        ((self.bits >> 5) & 0xf) as u8
    }

    /// Bit 9: the interruption arose while delivering another event.
    pub fn nested_event(&self) -> (r: bool)
        ensures
            r == ((self.bits >> 9) & 1 == 1),
    {
        (self.bits >> 9) & 1 == 1
    }

    /// Bits 16..=31: the interruption vector.
    pub fn interruption_vector(&self) -> (r: u16)
        ensures
            r == ((self.bits >> 16) & 0xffff) as u16,
    {
        ((self.bits >> 16) & 0xffff) as u16
    }

    /// Bits 32..=63: the error code.
    pub fn error_code(&self) -> (r: u32)
        ensures
            r == ((self.bits >> 32) & 0xffff_ffff) as u32,
    {
        ((self.bits >> 32) & 0xffff_ffff) as u32
    }
}

/// The deliverability-notifications register: one 64-bit word.
/// Bit 0 NMI notification; bit 1 interrupt notification; bits 2..=5
/// interrupt priority; bits 48..=63 synthetic-interrupt bits.
#[derive(Debug, Clone, Copy, PartialEq, Eq)]
pub struct DeliverabilityNotificationsRegister {
    pub bits: u64,
}

impl DeliverabilityNotificationsRegister {
    /// Bit 0: notify when an NMI becomes deliverable.
    pub fn nmi_notification(&self) -> (r: bool)
        ensures
            r == (self.bits & 1 == 1),
    {
        self.bits & 1 == 1
    }

    /// Bit 1: notify when an external interrupt becomes deliverable.
    pub fn interrupt_notification(&self) -> (r: bool)
        ensures
            r == ((self.bits >> 1) & 1 == 1),
    {
        (self.bits >> 1) & 1 == 1
    }

    /// Bits 2..=5: the priority of the awaited interrupt.
    pub fn interruption_priority(&self) -> (r: u8)
        ensures
            r == ((self.bits >> 2) & 0xf) as u8,
    {
        ((self.bits >> 2) & 0xf) as u8
    }

    /// Bits 48..=63: the synthetic-interrupt sources to watch.
    pub fn sint(&self) -> (r: u16)
        ensures
            r == ((self.bits >> 48) & 0xffff) as u16,
    {
        ((self.bits >> 48) & 0xffff) as u16
    }
}

/// A pending exception event: a 32-bit header word (bit 0 pending; bits
/// 1..=3 type; bit 8 deliver-error-code; bits 16..=31 vector), then the
/// error code and the exception parameter.
#[derive(Debug, Clone, Copy, PartialEq, Eq)]
pub struct PendingExceptionEvent {
    pub bits: u32,
    pub error_code: u32,
    pub exception_param: u64,
}

impl PendingExceptionEvent {
    /// Bit 0: the event is pending.
    pub fn event_pending(&self) -> (r: bool)
        ensures
            r == (self.bits & 1 == 1),
    {
        self.bits & 1 == 1
    }

    /// Bits 1..=3: the event type.
    pub fn event_type(&self) -> (r: u8)
        ensures
            r == ((self.bits >> 1) & 0x7) as u8,
    {
        ((self.bits >> 1) & 0x7) as u8
    }

    /// Bit 8: an error code is delivered with the exception.
    pub fn deliver_error_code(&self) -> (r: bool)
        ensures
            r == ((self.bits >> 8) & 1 == 1),
    {
        (self.bits >> 8) & 1 == 1
    }

    /// Bits 16..=31: the exception vector.
    pub fn vector(&self) -> (r: u16)
        ensures
            r == ((self.bits >> 16) & 0xffff) as u16,
    {
        ((self.bits >> 16) & 0xffff) as u16
    }
}

/// A pending external-interrupt event: one 64-bit word.
/// Bit 0 pending; bits 1..=3 type; bits 8..=15 vector.
#[derive(Debug, Clone, Copy, PartialEq, Eq)]
pub struct PendingExtIntEvent {
    pub bits: u64,
}

impl PendingExtIntEvent {
    /// Bit 0: the event is pending.
    pub fn event_pending(&self) -> (r: bool)
        ensures
            r == (self.bits & 1 == 1),
    {
        self.bits & 1 == 1
    }

    /// Bits 1..=3: the event type.
    pub fn event_type(&self) -> (r: u8)
        ensures
            r == ((self.bits >> 1) & 0x7) as u8,
    {
        ((self.bits >> 1) & 0x7) as u8
    }

    /// Bits 8..=15: the interrupt vector.
    pub fn vector(&self) -> (r: u8)
        ensures
            r == ((self.bits >> 8) & 0xff) as u8,
    {
        ((self.bits >> 8) & 0xff) as u8
    }
}

} // verus!
