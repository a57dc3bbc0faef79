//! Local APIC registers in x2APIC mode: their model-specific register
//! numbers, field encodings, and generic read/write access.

use crate::bitfield::{
    bit_spec, extract, extract_spec, get_bit, insert, insert_spec, lemma_extract_insert,
    lemma_insert_preserves_outside, low_mask, set_bit, set_bit_spec, BitField,
};
use crate::bus::{
    appended, coherent, extends, lemma_coherent_read, lemma_replay_last_write,
    lemma_replay_untouched, read_op, replay, write_op, BusOp,
};
use vstd::prelude::*;

verus! {

/// APIC base register.
pub const IA32_APIC_BASE: u32 = 0x1B;

/// Local APIC ID register.
pub const ID: u32 = 0x802;
/// Local APIC version register.
pub const VERSION: u32 = 0x803;
/// Task priority register.
pub const TPR: u32 = 0x808;
/// Processor priority register.
pub const PPR: u32 = 0x80A;
/// End-of-interrupt register.
pub const EOI: u32 = 0x80B;
/// Logical destination register.
pub const LDR: u32 = 0x80D;
/// Spurious interrupt vector register.
pub const SIVR: u32 = 0x80F;

/// First of the eight in-service registers.
pub const ISR_0: u32 = 0x810;
/// First of the eight trigger-mode registers.
pub const TMR_0: u32 = 0x818;
/// First of the eight interrupt-request registers.
pub const IRR_0: u32 = 0x820;

/// Error status register.
pub const ERROR: u32 = 0x828;
/// Interrupt command register.
pub const ICR: u32 = 0x830;

/// Local vector table entry of the timer.
pub const LVT_TIMER: u32 = 0x832;
/// Local vector table entry of the thermal sensor.
pub const LVT_THERMAL: u32 = 0x833;
/// Local vector table entry of the performance counters.
pub const LVT_PERF: u32 = 0x834;
/// Local vector table entry of local interrupt line 0.
pub const LVT_LINT0: u32 = 0x835;
/// Local vector table entry of local interrupt line 1.
pub const LVT_LINT1: u32 = 0x836;
/// Local vector table entry of the error interrupt.
pub const LVT_ERROR: u32 = 0x837;

/// Timer initial count register.
pub const TICR: u32 = 0x838;
/// Timer current count register.
pub const TCCR: u32 = 0x839;
/// Timer divide configuration register.
pub const TDCR: u32 = 0x83E;

/// Self-IPI register.
pub const SELF_IPI: u32 = 0x83F;

/// TSC deadline register, used in absolute-deadline timer mode.
pub const IA32_TSC_DEADLINE: u32 = 0x6E0;

/// APIC base register: global enable bit.
pub const BASE_APIC_ENABLE: u64 = 11;
/// APIC base register: x2APIC mode bit.
pub const BASE_X2APIC_ENABLE: u64 = 10;
/// APIC base register: bootstrap-processor bit.
pub const BASE_BSP: u64 = 8;

/// Version register: EOI-broadcast suppression support bit.
pub const VERSION_EOI_BCAST_SUPPRESSION: u64 = 24;

/// Spurious-vector register: EOI-broadcast suppression bit.
pub const SIVR_EOI_BCAST_SUPPRESSION: u64 = 12;
/// Spurious-vector register: focus processor checking bit.
pub const SIVR_FOCUS_PROCESSOR_CHECKING: u64 = 9;
/// Spurious-vector register: APIC software enable bit.
pub const SIVR_APIC_SOFTWARE_ENABLE: u64 = 8;

/// Interrupt command register: trigger mode bit (set: level).
pub const ICR_TRIGGER_MODE: u64 = 15;
/// Interrupt command register: level bit (set: assert).
pub const ICR_LEVEL: u64 = 14;
/// Interrupt command register: destination mode bit (set: logical).
pub const ICR_DESTINATION_MODE: u64 = 11;

/// Local vector table: mask bit.
pub const LVT_MASK: u64 = 16;
/// Local vector table: trigger mode bit (local interrupt lines only).
pub const LVT_TRIGGER_MODE: u64 = 15;
/// Local vector table: polarity bit (local interrupt lines only).
pub const LVT_POLARITY: u64 = 13;

/// Checksum error during send.
pub const SEND_CHECKSUM_ERROR: u8 = 0b0000_0001;
/// Checksum error during receive.
pub const RECEIVE_CHECKSUM_ERROR: u8 = 0b0000_0010;
/// A sent message was accepted by no APIC.
pub const SEND_ACCEPT_ERROR: u8 = 0b0000_0100;
/// A received message was accepted by no APIC.
pub const RECEIVE_ACCEPT_ERROR: u8 = 0b0000_1000;
/// Lowest-priority delivery is not supported.
pub const REDIRECTABLE_IPI: u8 = 0b0001_0000;
/// Illegal vector (0-15) during send.
pub const SEND_ILLEGAL_VECTOR: u8 = 0b0010_0000;
/// Illegal vector (0-15) during receive.
pub const RECEIVED_ILLEGAL_VECTOR: u8 = 0b0100_0000;
/// Access to a reserved register.
pub const ILLEGAL_REGISTER_ADDRESS: u8 = 0b1000_0000;

/// The error flags of the error status register.
#[derive(Clone, Copy, Debug, PartialEq, Eq, Structural)]
pub struct ErrorFlags {
    /// One bit per flag, as the register holds them.
    pub bits: u8,
}

impl ErrorFlags {
    /// Whether every flag of `flags` is set.
    pub fn contains(&self, flags: u8) -> (r: bool)
        ensures
            r == (self.bits & flags == flags),
    {
        self.bits & flags == flags
    }

    /// Whether no flag is set.
    pub fn is_empty(&self) -> (r: bool)
        ensures
            r == (self.bits == 0),
    {
        self.bits == 0
    }
}

/// Local APIC timer modes.
#[derive(Clone, Copy, Debug, PartialEq, Eq, Structural)]
pub enum TimerMode {
    /// Timer only fires once.
    OneShot,
    /// Timer fires periodically.
    Periodic,
    /// Timer fires at an absolute time.
    TscDeadline,
}

/// Encoding of a timer mode in the timer entry's mode field.
pub open spec fn timer_mode_bits(m: TimerMode) -> u64 {
    match m {
        TimerMode::OneShot => 0b00,
        TimerMode::Periodic => 0b01,
        TimerMode::TscDeadline => 0b10,
    }
}

impl TimerMode {
    /// The mode field value for this mode.
    pub fn into_u64(self) -> (r: u64)
        ensures
            r == timer_mode_bits(self),
    {
        match self {
            TimerMode::OneShot => 0b00,
            TimerMode::Periodic => 0b01,
            TimerMode::TscDeadline => 0b10,
        }
    }
}

/// Local APIC timer divide configurations: the timer runs at the processor
/// bus frequency divided by the given value.
#[derive(Clone, Copy, Debug, PartialEq, Eq, Structural)]
pub enum TimerDivide {
    /// Divide by 2.
    Div2,
    /// Divide by 4.
    Div4,
    /// Divide by 8.
    Div8,
    /// Divide by 16.
    Div16,
    /// Divide by 32.
    Div32,
    /// Divide by 64.
    Div64,
    /// Divide by 128.
    Div128,
    /// Divide by 256.
    Div256,
}

/// Encoding of a divide ratio in the divide configuration register.
pub open spec fn timer_divide_bits(d: TimerDivide) -> u64 {
    match d {
        TimerDivide::Div2 => 0b0000,
        TimerDivide::Div4 => 0b0001,
        TimerDivide::Div8 => 0b0010,
        TimerDivide::Div16 => 0b0011,
        TimerDivide::Div32 => 0b1000,
        TimerDivide::Div64 => 0b1001,
        TimerDivide::Div128 => 0b1010,
        TimerDivide::Div256 => 0b1011,
    }
}

impl TimerDivide {
    /// The divide configuration value for this ratio.
    pub fn into_u64(self) -> (r: u64)
        ensures
            r == timer_divide_bits(self),
    {
        match self {
            TimerDivide::Div2 => 0b0000,
            TimerDivide::Div4 => 0b0001,
            TimerDivide::Div8 => 0b0010,
            TimerDivide::Div16 => 0b0011,
            TimerDivide::Div32 => 0b1000,
            TimerDivide::Div64 => 0b1001,
            TimerDivide::Div128 => 0b1010,
            TimerDivide::Div256 => 0b1011,
        }
    }
}

/// Inter-processor interrupt destination mode.
#[derive(Clone, Copy, Debug, PartialEq, Eq, Structural)]
pub enum IpiDestMode {
    /// Physical destination mode.
    Physical,
    /// Logical destination mode.
    Logical,
}

/// Inter-processor interrupt delivery modes.
#[derive(Clone, Copy, Debug, PartialEq, Eq, Structural)]
pub enum IpiDeliveryMode {
    /// Delivers to the processors specified in the vector field.
    Fixed,
    /// Same as fixed, except interrupt is delivered to the processor with the
    /// lowest priority.
    LowestPriority,
    /// Delivers a system management interrupt to the target processors.
    SystemManagement,
    /// Delivers a non-maskable interrupt to the target processors.
    NonMaskable,
    /// Delivers an INIT interrupt to the target processor(s).
    Init,
    /// Delivers a start-up IPI to the target processor(s).
    StartUp,
}

/// Encoding of a delivery mode in the command register's delivery field.
pub open spec fn ipi_delivery_bits(m: IpiDeliveryMode) -> u64 {
    match m {
        IpiDeliveryMode::Fixed => 0b000,
        IpiDeliveryMode::LowestPriority => 0b001,
        IpiDeliveryMode::SystemManagement => 0b010,
        IpiDeliveryMode::NonMaskable => 0b100,
        IpiDeliveryMode::Init => 0b101,
        IpiDeliveryMode::StartUp => 0b110,
    }
}

impl IpiDeliveryMode {
    /// The delivery field value for this mode.
    pub fn into_u64(self) -> (r: u64)
        ensures
            r == ipi_delivery_bits(self),
    {
        match self {
            IpiDeliveryMode::Fixed => 0b000,
            IpiDeliveryMode::LowestPriority => 0b001,
            IpiDeliveryMode::SystemManagement => 0b010,
            IpiDeliveryMode::NonMaskable => 0b100,
            IpiDeliveryMode::Init => 0b101,
            IpiDeliveryMode::StartUp => 0b110,
        }
    }
}

/// Destination shorthands for an interrupt sent to all processors.
#[derive(Clone, Copy, Debug, PartialEq, Eq, Structural)]
pub enum IpiAllShorthand {
    /// Send to all processors.
    AllIncludingSelf,
    /// Send to all processors but this one.
    AllExcludingSelf,
}

/// Encoding of a shorthand in the command register's shorthand field.
pub open spec fn ipi_shorthand_bits(s: IpiAllShorthand) -> u64 {
    match s {
        IpiAllShorthand::AllIncludingSelf => 0b10,
        IpiAllShorthand::AllExcludingSelf => 0b11,
    }
}

impl IpiAllShorthand {
    /// The shorthand field value.
    pub fn into_u64(self) -> (r: u64)
        ensures
            r == ipi_shorthand_bits(self),
    {
        match self {
            IpiAllShorthand::AllIncludingSelf => 0b10,
            IpiAllShorthand::AllExcludingSelf => 0b11,
        }
    }
}

/// Access to the local APIC's model-specific registers by number.
pub trait MsrBus {
    /// Reads the model-specific register `reg`.
    fn read(&mut self, reg: u32) -> u64;

    /// Writes `value` to the model-specific register `reg`.
    fn write(&mut self, reg: u32, value: u64);
}

/// `after` is `before` and one read of `reg`, which returned `value`.
pub open spec fn reg_read(after: Seq<BusOp<u64>>, before: Seq<BusOp<u64>>, reg: u32, value: u64) -> bool {
    after == before.push(read_op(reg, value))
}

/// `after` is `before` and one write of `value` to `reg`.
pub open spec fn reg_written(after: Seq<BusOp<u64>>, before: Seq<BusOp<u64>>, reg: u32, value: u64) -> bool {
    after == before.push(write_op(reg, value))
}

/// The value that the last transaction of `ops` read.
pub open spec fn last_read(ops: Seq<BusOp<u64>>) -> u64 {
    ops.last().value
}

/// `after` is `before` and one read of `reg`, and `r` is field `f` of the
/// value read.
pub open spec fn field_read(
    after: Seq<BusOp<u64>>,
    before: Seq<BusOp<u64>>,
    reg: u32,
    f: BitField,
    r: u64,
) -> bool {
    reg_read(after, before, reg, last_read(after)) && r == extract_spec(last_read(after), f)
}

/// `after` is `before` and one read of `reg`, and `r` is bit `pos` of the
/// value read.
pub open spec fn bit_read(after: Seq<BusOp<u64>>, before: Seq<BusOp<u64>>, reg: u32, pos: u64, r: bool) -> bool {
    reg_read(after, before, reg, last_read(after)) && r == bit_spec(last_read(after), pos)
}

/// `after` is `before`, a read of `reg`, and a write back of the value read
/// with `g` applied.
pub open spec fn reg_updated(
    after: Seq<BusOp<u64>>,
    before: Seq<BusOp<u64>>,
    reg: u32,
    g: spec_fn(u64) -> u64,
) -> bool {
    let added = appended(after, before);
    &&& extends(after, before)
    &&& added.len() == 2
    &&& added[0] == read_op(reg, added[0].value)
    &&& added[1] == write_op(reg, g(added[0].value))
}

/// `after` is `before`, a read of `reg`, and a write back of the value read
/// with field `f` set to `raw`.
pub open spec fn field_written(
    after: Seq<BusOp<u64>>,
    before: Seq<BusOp<u64>>,
    reg: u32,
    f: BitField,
    raw: u64,
) -> bool {
    reg_updated(after, before, reg, |v: u64| insert_spec(v, f, raw))
}

/// `after` is `before`, a read of `reg`, and a write back of the value read
/// with bit `pos` set to `val`.
pub open spec fn bit_written(
    after: Seq<BusOp<u64>>,
    before: Seq<BusOp<u64>>,
    reg: u32,
    pos: u64,
    val: bool,
) -> bool {
    reg_updated(after, before, reg, |v: u64| set_bit_spec(v, pos, val))
}

/// The local APIC registers of one core, reached through `B`.
///
/// Every access goes to the hardware: nothing is cached. Each access is
/// recorded; `ops` is that record, in order.
pub struct LocalApicRegisters<B: MsrBus> {
    bus: B,
    log: Ghost<Seq<BusOp<u64>>>,
}

impl<B: MsrBus> LocalApicRegisters<B> {
    /// The register transactions made so far, in order.
    pub closed spec fn ops(&self) -> Seq<BusOp<u64>> {
        self.log@
    }

    /// The registers reached through `bus`. The processor must already be
    /// in x2APIC mode.
    pub fn new(bus: B) -> (r: Self)
        ensures
            r.ops() == Seq::<BusOp<u64>>::empty(),
    {
        LocalApicRegisters { bus, log: Ghost(Seq::empty()) }
    }

    /// The register transport.
    pub fn bus(&self) -> &B {
        &self.bus
    }

    /// Reads register `reg`.
    pub fn read(&mut self, reg: u32) -> (r: u64)
        ensures
            reg_read(final(self).ops(), old(self).ops(), reg, r),
    {
        let r = self.bus.read(reg);
        self.log = Ghost(self.log@.push(read_op(reg, r)));
        r
    }

    /// Writes `value` to register `reg`.
    pub fn write(&mut self, reg: u32, value: u64)
        ensures
            reg_written(final(self).ops(), old(self).ops(), reg, value),
    {
        self.bus.write(reg, value);
        self.log = Ghost(self.log@.push(write_op(reg, value)));
    }

    /// Reads bit `pos` of register `reg`.
    pub fn read_bit(&mut self, reg: u32, pos: u64) -> (r: bool)
        requires
            pos < 64,
        ensures
            bit_read(final(self).ops(), old(self).ops(), reg, pos, r),
    {
        let v = self.read(reg);
        get_bit(v, pos)
    }

    /// Reads field `f` of register `reg`, right-aligned.
    pub fn read_field(&mut self, reg: u32, f: BitField) -> (r: u64)
        requires
            f.wf(),
        ensures
            field_read(final(self).ops(), old(self).ops(), reg, f, r),
            r <= low_mask(f.width()),
    {
        let v = self.read(reg);
        extract(v, f)
    }

    /// Sets bit `pos` of register `reg` to `val`, leaving the other bits.
    pub fn write_bit(&mut self, reg: u32, pos: u64, val: bool)
        requires
            pos < 64,
        ensures
            bit_written(final(self).ops(), old(self).ops(), reg, pos, val),
    {
        let ghost start = self.ops();
        let v = self.read(reg);
        self.write(reg, set_bit(v, pos, val));
        assert(self.ops().subrange(0, start.len() as int) =~= start);
    }

    /// Sets field `f` of register `reg` to the low bits of `raw`, leaving the
    /// other bits.
    pub fn write_field(&mut self, reg: u32, f: BitField, raw: u64)
        requires
            f.wf(),
        ensures
            field_written(final(self).ops(), old(self).ops(), reg, f, raw),
    {
        let ghost start = self.ops();
        let v = self.read(reg);
        self.write(reg, insert(v, f, raw));
        assert(self.ops().subrange(0, start.len() as int) =~= start);
    }
}

/// A field write, on a register file that behaves as memory, leaves the
/// field holding the low bits of `raw`, leaves every field `g` that does not
/// overlap it as it was, and changes no other register.
pub proof fn lemma_field_write_effect(
    mem: spec_fn(u32) -> u64,
    after: Seq<BusOp<u64>>,
    before: Seq<BusOp<u64>>,
    reg: u32,
    f: BitField,
    raw: u64,
    g: BitField,
    other: u32,
)
    requires
        f.wf(),
        g.wf(),
        g.end <= f.start || f.end <= g.start,
        field_written(after, before, reg, f, raw),
        coherent(mem, appended(after, before)),
    ensures
        extract_spec(replay(mem, appended(after, before))(reg), f) == raw & low_mask(f.width()),
        extract_spec(replay(mem, appended(after, before))(reg), g) == extract_spec(mem(reg), g),
        other != reg ==> replay(mem, appended(after, before))(other) == mem(other),
{
    let ops = appended(after, before);
    lemma_replay_last_write(mem, ops, 1);
    lemma_coherent_read(mem, ops, 0);
    lemma_replay_untouched(mem, ops.subrange(0, 0), reg);
    lemma_extract_insert(mem(reg), f, raw);
    lemma_insert_preserves_outside(mem(reg), f, raw, g);
    if other != reg {
        lemma_replay_untouched(mem, ops, other);
    }
}

} // verus!
