//! The local APIC of one core: identity, priorities, end of interrupt,
//! spurious vector, pending-interrupt bitmaps, error status,
//! inter-processor interrupts, local vector table and timer.

pub mod lapic_msr;

use crate::bitfield::{field, lemma_low_mask_monotonic, lemma_low_mask_values, BitField};
use crate::bus::{write_op, BusOp};
use lapic_msr::{
    bit_read, bit_written, field_read, field_written, ipi_delivery_bits, ipi_shorthand_bits,
    reg_written, timer_divide_bits, timer_mode_bits, ErrorFlags, IpiAllShorthand,
    IpiDeliveryMode, IpiDestMode, LocalApicRegisters, MsrBus, TimerDivide, TimerMode, EOI,
    ERROR, IA32_APIC_BASE, IA32_TSC_DEADLINE, ICR, ID, IRR_0, ISR_0, LDR, LVT_ERROR, LVT_LINT0,
    LVT_LINT1, LVT_MASK, LVT_PERF, LVT_POLARITY, LVT_TRIGGER_MODE, LVT_THERMAL, LVT_TIMER, PPR, SELF_IPI, SIVR, TCCR, TDCR, TICR,
    TMR_0, TPR, VERSION,
};
use vstd::prelude::*;

verus! {

/// The sources of the local vector table.
#[derive(Clone, Copy, Debug, PartialEq, Eq, Structural)]
pub enum LvtSource {
    /// The local timer.
    Timer,
    /// The thermal sensor.
    Thermal,
    /// The performance counters.
    Performance,
    /// Local interrupt line 0.
    Lint0,
    /// Local interrupt line 1.
    Lint1,
    /// Internal errors.
    Error,
}

/// The register that holds the local vector table entry of `s`.
pub open spec fn lvt_reg(s: LvtSource) -> u32 {
    match s {
        LvtSource::Timer => LVT_TIMER,
        LvtSource::Thermal => LVT_THERMAL,
        LvtSource::Performance => LVT_PERF,
        LvtSource::Lint0 => LVT_LINT0,
        LvtSource::Lint1 => LVT_LINT1,
        LvtSource::Error => LVT_ERROR,
    }
}

impl LvtSource {
    /// The register that holds this source's entry.
    pub fn register(self) -> (r: u32)
        ensures
            r == lvt_reg(self),
    {
        match self {
            LvtSource::Timer => LVT_TIMER,
            LvtSource::Thermal => LVT_THERMAL,
            LvtSource::Performance => LVT_PERF,
            LvtSource::Lint0 => LVT_LINT0,
            LvtSource::Lint1 => LVT_LINT1,
            LvtSource::Error => LVT_ERROR,
        }
    }
}

/// Delivery modes of a local vector table entry.
#[derive(Clone, Copy, Debug, PartialEq, Eq, Structural)]
pub enum LvtDeliveryMode {
    /// Delivers the entry's vector.
    Fixed,
    /// Delivers a system management interrupt.
    SystemManagement,
    /// Delivers a non-maskable interrupt.
    NonMaskable,
    /// Delivers an INIT request.
    Init,
    /// Delivers as from an externally connected interrupt controller.
    External,
}

/// Encoding of `m` in the delivery-mode field (bits 8..11) of an entry.
pub open spec fn lvt_delivery_bits(m: LvtDeliveryMode) -> u64 {
    match m {
        LvtDeliveryMode::Fixed => 0b000,
        LvtDeliveryMode::SystemManagement => 0b010,
        LvtDeliveryMode::NonMaskable => 0b100,
        LvtDeliveryMode::Init => 0b101,
        LvtDeliveryMode::External => 0b111,
    }
}

impl LvtDeliveryMode {
    /// The delivery-mode field value for this mode.
    pub fn into_u64(self) -> (r: u64)
        ensures
            r == lvt_delivery_bits(self),
    {
        match self {
            LvtDeliveryMode::Fixed => 0b000,
            LvtDeliveryMode::SystemManagement => 0b010,
            LvtDeliveryMode::NonMaskable => 0b100,
            LvtDeliveryMode::Init => 0b101,
            LvtDeliveryMode::External => 0b111,
        }
    }
}

/// The two local interrupt lines, whose entries also carry a trigger mode
/// and a polarity.
#[derive(Clone, Copy, Debug, PartialEq, Eq, Structural)]
pub enum LocalLine {
    /// Local interrupt line 0.
    Lint0,
    /// Local interrupt line 1.
    Lint1,
}

/// The register that holds the entry of local line `l`.
pub open spec fn lint_reg(l: LocalLine) -> u32 {
    match l {
        LocalLine::Lint0 => LVT_LINT0,
        LocalLine::Lint1 => LVT_LINT1,
    }
}

impl LocalLine {
    /// The register that holds this line's entry.
    pub fn register(self) -> (r: u32)
        ensures
            r == lint_reg(self),
    {
        match self {
            LocalLine::Lint0 => LVT_LINT0,
            LocalLine::Lint1 => LVT_LINT1,
        }
    }
}

/// The register of the 256-bit bitmap starting at `base` that holds the bit
/// of `vector`: one register for each 32 vectors.
pub open spec fn bitmap_reg(base: u32, vector: u8) -> u32 {
    (base + vector / 32) as u32
}

/// The bit of `vector` within its bitmap register.
pub open spec fn bitmap_bit(vector: u8) -> u64 {
    (vector % 32) as u64
}

/// The interrupt command that sends `vector` to the explicit destination
/// `dest`: the destination in the high half, and in the low half the
/// vector, delivery mode, destination mode, level and trigger mode.
pub open spec fn icr_value(
    vector: u8,
    dest: u32,
    mode: IpiDeliveryMode,
    dest_mode: IpiDestMode,
    level_triggered: bool,
    assert_level: bool,
) -> u64 {
    ((dest as u64) << 32u64) | (if level_triggered { 0x8000u64 } else { 0u64 }) | (if assert_level {
        0x4000u64
    } else {
        0u64
    }) | (if dest_mode == IpiDestMode::Logical { 0x800u64 } else { 0u64 }) | (ipi_delivery_bits(
        mode,
    ) << 8u64) | (vector as u64)
}

/// The interrupt command that sends `vector` to the processors named by
/// `shorthand`; the destination field is zero and not used.
pub open spec fn icr_shorthand_value(vector: u8, mode: IpiDeliveryMode, shorthand: IpiAllShorthand) -> u64 {
    (ipi_shorthand_bits(shorthand) << 18u64) | (ipi_delivery_bits(mode) << 8u64) | (vector as u64)
}

/// The local APIC of one core, reached through `B`.
pub struct LocalApic<B: MsrBus> {
    regs: LocalApicRegisters<B>,
}

impl<B: MsrBus> LocalApic<B> {
    /// The register transactions made so far, in order.
    pub closed spec fn ops(&self) -> Seq<BusOp<u64>> {
        self.regs.ops()
    }

    /// The local APIC whose registers are reached through `bus`. The
    /// processor must already be in x2APIC mode.
    pub fn new(bus: B) -> (r: Self)
        ensures
            r.ops() == Seq::<BusOp<u64>>::empty(),
    {
        LocalApic { regs: LocalApicRegisters::new(bus) }
    }

    /// The register transport.
    pub fn bus(&self) -> &B {
        self.regs.bus()
    }

    fn read_byte_field(&mut self, reg: u32, f: BitField) -> (r: u8)
        requires
            f.wf(),
            f.width() <= 8,
        ensures
            field_read(final(self).ops(), old(self).ops(), reg, f, r as u64),
    {
        proof {
            lemma_low_mask_values();
        }
        let v = self.regs.read_field(reg, f);
        assert(v <= 255) by {
            lemma_low_mask_monotonic(f.width(), 8);
        }
        v as u8
    }

    /// Whether this core is the bootstrap processor.
    pub fn is_bsp(&mut self) -> (r: bool)
        ensures
            bit_read(final(self).ops(), old(self).ops(), IA32_APIC_BASE, 8, r),
    {
        self.regs.read_bit(IA32_APIC_BASE, 8)
    }

    /// The 4-bit local APIC ID.
    pub fn id(&mut self) -> (r: u8)
        ensures
            field_read(final(self).ops(), old(self).ops(), ID, field(24, 28), r as u64),
    {
        self.read_byte_field(ID, BitField::new(24, 28))
    }

    /// Sets the local APIC ID to the low four bits of `id`.
    pub fn set_id(&mut self, id: u8)
        ensures
            field_written(final(self).ops(), old(self).ops(), ID, field(24, 28), id as u64),
    {
        self.regs.write_field(ID, BitField::new(24, 28), id as u64)
    }

    /// The version number.
    pub fn version(&mut self) -> (r: u8)
        ensures
            field_read(final(self).ops(), old(self).ops(), VERSION, field(0, 8), r as u64),
    {
        self.read_byte_field(VERSION, BitField::new(0, 8))
    }

    /// The highest valid local vector table index.
    pub fn max_lvt_entry(&mut self) -> (r: u8)
        ensures
            field_read(final(self).ops(), old(self).ops(), VERSION, field(16, 24), r as u64),
    {
        self.read_byte_field(VERSION, BitField::new(16, 24))
    }

    /// Whether EOI-broadcast suppression is supported.
    pub fn has_eoi_bcast_suppression(&mut self) -> (r: bool)
        ensures
            bit_read(final(self).ops(), old(self).ops(), VERSION, 24, r),
    {
        self.regs.read_bit(VERSION, 24)
    }

    /// The task priority.
    pub fn task_priority(&mut self) -> (r: u8)
        ensures
            field_read(final(self).ops(), old(self).ops(), TPR, field(0, 8), r as u64),
    {
        self.read_byte_field(TPR, BitField::new(0, 8))
    }

    /// Sets the task priority.
    pub fn set_task_priority(&mut self, priority: u8)
        ensures
            field_written(final(self).ops(), old(self).ops(), TPR, field(0, 8), priority as u64),
    {
        self.regs.write_field(TPR, BitField::new(0, 8), priority as u64)
    }

    /// The processor priority, as the hardware computes it.
    pub fn processor_priority(&mut self) -> (r: u8)
        ensures
            field_read(final(self).ops(), old(self).ops(), PPR, field(0, 8), r as u64),
    {
        self.read_byte_field(PPR, BitField::new(0, 8))
    }

    /// Signals the end of the interrupt being serviced.
    pub fn end_of_interrupt(&mut self)
        ensures
            reg_written(final(self).ops(), old(self).ops(), EOI, 0),
    {
        self.regs.write(EOI, 0)
    }

    /// The 8-bit logical ID.
    pub fn logical_id(&mut self) -> (r: u8)
        ensures
            field_read(final(self).ops(), old(self).ops(), LDR, field(24, 32), r as u64),
    {
        self.read_byte_field(LDR, BitField::new(24, 32))
    }

    /// Sets the logical ID.
    pub fn set_logical_id(&mut self, id: u8)
        ensures
            field_written(final(self).ops(), old(self).ops(), LDR, field(24, 32), id as u64),
    {
        self.regs.write_field(LDR, BitField::new(24, 32), id as u64)
    }

    /// The spurious-interrupt vector.
    pub fn spurious_vector(&mut self) -> (r: u8)
        ensures
            field_read(final(self).ops(), old(self).ops(), SIVR, field(0, 8), r as u64),
    {
        self.read_byte_field(SIVR, BitField::new(0, 8))
    }

    /// Sets the spurious-interrupt vector.
    pub fn set_spurious_vector(&mut self, vector: u8)
        ensures
            field_written(final(self).ops(), old(self).ops(), SIVR, field(0, 8), vector as u64),
    {
        self.regs.write_field(SIVR, BitField::new(0, 8), vector as u64)
    }

    /// Whether the APIC is software-enabled.
    pub fn is_software_enabled(&mut self) -> (r: bool)
        ensures
            bit_read(final(self).ops(), old(self).ops(), SIVR, 8, r),
    {
        self.regs.read_bit(SIVR, 8)
    }

    /// Software-enables or disables the APIC.
    pub fn set_software_enabled(&mut self, enabled: bool)
        ensures
            bit_written(final(self).ops(), old(self).ops(), SIVR, 8, enabled),
    {
        self.regs.write_bit(SIVR, 8, enabled)
    }

    /// Whether focus processor checking is disabled.
    pub fn is_focus_checking_disabled(&mut self) -> (r: bool)
        ensures
            bit_read(final(self).ops(), old(self).ops(), SIVR, 9, r),
    {
        self.regs.read_bit(SIVR, 9)
    }

    /// Disables or enables focus processor checking.
    pub fn set_focus_checking_disabled(&mut self, disabled: bool)
        ensures
            bit_written(final(self).ops(), old(self).ops(), SIVR, 9, disabled),
    {
        self.regs.write_bit(SIVR, 9, disabled)
    }

    /// Whether EOI-broadcast suppression is enabled.
    pub fn is_eoi_bcast_suppressed(&mut self) -> (r: bool)
        ensures
            bit_read(final(self).ops(), old(self).ops(), SIVR, 12, r),
    {
        self.regs.read_bit(SIVR, 12)
    }

    /// Enables or disables EOI-broadcast suppression.
    pub fn set_eoi_bcast_suppression(&mut self, suppress: bool)
        ensures
            bit_written(final(self).ops(), old(self).ops(), SIVR, 12, suppress),
    {
        self.regs.write_bit(SIVR, 12, suppress)
    }

    fn bitmap_query(&mut self, base: u32, vector: u8) -> (r: bool)
        requires
            base == ISR_0 || base == TMR_0 || base == IRR_0,
        ensures
            bit_read(
                final(self).ops(),
                old(self).ops(),
                bitmap_reg(base, vector),
                bitmap_bit(vector),
                r,
            ),
    {
        let reg = base + (vector / 32) as u32;
        self.regs.read_bit(reg, (vector % 32) as u64)
    }

    /// Whether `vector` is in service.
    pub fn is_in_service(&mut self, vector: u8) -> (r: bool)
        ensures
            bit_read(
                final(self).ops(),
                old(self).ops(),
                bitmap_reg(ISR_0, vector),
                bitmap_bit(vector),
                r,
            ),
    {
        self.bitmap_query(ISR_0, vector)
    }

    /// Whether `vector` was accepted as level-triggered.
    pub fn is_level_triggered(&mut self, vector: u8) -> (r: bool)
        ensures
            bit_read(
                final(self).ops(),
                old(self).ops(),
                bitmap_reg(TMR_0, vector),
                bitmap_bit(vector),
                r,
            ),
    {
        self.bitmap_query(TMR_0, vector)
    }

    /// Whether `vector` is requested (pending).
    pub fn is_requested(&mut self, vector: u8) -> (r: bool)
        ensures
            bit_read(
                final(self).ops(),
                old(self).ops(),
                bitmap_reg(IRR_0, vector),
                bitmap_bit(vector),
                r,
            ),
    {
        self.bitmap_query(IRR_0, vector)
    }

    /// Writes zero to the error status register: it then holds the errors
    /// detected since the previous write, and detection starts anew.
    pub fn clear_errors(&mut self)
        ensures
            reg_written(final(self).ops(), old(self).ops(), ERROR, 0),
    {
        self.regs.write(ERROR, 0)
    }

    /// The error flags that the error status register holds now.
    pub fn read_errors(&mut self) -> (r: ErrorFlags)
        ensures
            field_read(final(self).ops(), old(self).ops(), ERROR, field(0, 8), r.bits as u64),
    {
        let bits = self.read_byte_field(ERROR, BitField::new(0, 8));
        ErrorFlags { bits }
    }

    /// The errors detected since the previous write to the error status
    /// register: a write of zero, then a read.
    pub fn error_flags(&mut self) -> (r: ErrorFlags)
        ensures
            ({
                let mid = old(self).ops().push(write_op(ERROR, 0u64));
                field_read(final(self).ops(), mid, ERROR, field(0, 8), r.bits as u64)
            }),
    {
        self.clear_errors();
        self.read_errors()
    }

    /// Sends `vector` to the explicit destination `dest`. In x2APIC mode the
    /// command register is a single 64-bit register: one write carries the
    /// destination (high half) together with the command (low half), and
    /// that write sends the interrupt.
    pub fn send_ipi(
        &mut self,
        vector: u8,
        dest: u32,
        mode: IpiDeliveryMode,
        dest_mode: IpiDestMode,
        level_triggered: bool,
        assert_level: bool,
    )
        ensures
            reg_written(
                final(self).ops(),
                old(self).ops(),
                ICR,
                icr_value(vector, dest, mode, dest_mode, level_triggered, assert_level),
            ),
    {
        let trigger: u64 = if level_triggered { 0x8000 } else { 0 };
        let level: u64 = if assert_level { 0x4000 } else { 0 };
        let logical: u64 = match dest_mode {
            IpiDestMode::Logical => 0x800,
            IpiDestMode::Physical => 0,
        };
        let m = mode.into_u64();
        let value = ((dest as u64) << 32) | trigger | level | logical | (m << 8) | (vector as u64);
        self.regs.write(ICR, value)
    }

    /// Sends `vector` to the processors that `shorthand` names, in place of
    /// an explicit destination.
    pub fn send_ipi_all(&mut self, vector: u8, mode: IpiDeliveryMode, shorthand: IpiAllShorthand)
        ensures
            reg_written(
                final(self).ops(),
                old(self).ops(),
                ICR,
                icr_shorthand_value(vector, mode, shorthand),
            ),
    {
        let s = shorthand.into_u64();
        let m = mode.into_u64();
        self.regs.write(ICR, (s << 18) | (m << 8) | (vector as u64))
    }

    /// Sends `vector` to this core.
    pub fn send_ipi_self(&mut self, vector: u8)
        ensures
            reg_written(final(self).ops(), old(self).ops(), SELF_IPI, vector as u64),
    {
        self.regs.write(SELF_IPI, vector as u64)
    }

    /// The vector of the local vector table entry of `source`.
    pub fn lvt_vector(&mut self, source: LvtSource) -> (r: u8)
        ensures
            field_read(final(self).ops(), old(self).ops(), lvt_reg(source), field(0, 8), r as u64),
    {
        self.read_byte_field(source.register(), BitField::new(0, 8))
    }

    /// Sets the vector of the local vector table entry of `source`.
    pub fn set_lvt_vector(&mut self, source: LvtSource, vector: u8)
        ensures
            field_written(
                final(self).ops(),
                old(self).ops(),
                lvt_reg(source),
                field(0, 8),
                vector as u64,
            ),
    {
        self.regs.write_field(source.register(), BitField::new(0, 8), vector as u64)
    }

    /// Whether the local vector table entry of `source` is masked.
    pub fn is_lvt_masked(&mut self, source: LvtSource) -> (r: bool)
        ensures
            bit_read(final(self).ops(), old(self).ops(), lvt_reg(source), LVT_MASK, r),
    {
        self.regs.read_bit(source.register(), LVT_MASK)
    }

    /// Masks or unmasks the local vector table entry of `source`.
    pub fn set_lvt_masked(&mut self, source: LvtSource, masked: bool)
        ensures
            bit_written(final(self).ops(), old(self).ops(), lvt_reg(source), LVT_MASK, masked),
    {
        self.regs.write_bit(source.register(), LVT_MASK, masked)
    }

    /// The whole local vector table entry of `source`.
    pub fn lvt_entry(&mut self, source: LvtSource) -> (r: u32)
        ensures
            field_read(final(self).ops(), old(self).ops(), lvt_reg(source), field(0, 32), r as u64),
    {
        proof {
            lemma_low_mask_values();
        }
        let v = self.regs.read_field(source.register(), BitField::new(0, 32));
        v as u32
    }

    /// Sets the delivery mode of the local vector table entry of `source`.
    pub fn set_lvt_delivery_mode(&mut self, source: LvtSource, mode: LvtDeliveryMode)
        ensures
            field_written(
                final(self).ops(),
                old(self).ops(),
                lvt_reg(source),
                field(8, 11),
                lvt_delivery_bits(mode),
            ),
    {
        self.regs.write_field(source.register(), BitField::new(8, 11), mode.into_u64())
    }

    /// Sets local line `line` to level-triggered or edge-triggered.
    pub fn set_lint_level_triggered(&mut self, line: LocalLine, level: bool)
        ensures
            bit_written(final(self).ops(), old(self).ops(), lint_reg(line), LVT_TRIGGER_MODE, level),
    {
        self.regs.write_bit(line.register(), LVT_TRIGGER_MODE, level)
    }

    /// Sets local line `line` to low-active or high-active.
    pub fn set_lint_low_active(&mut self, line: LocalLine, low: bool)
        ensures
            bit_written(final(self).ops(), old(self).ops(), lint_reg(line), LVT_POLARITY, low),
    {
        self.regs.write_bit(line.register(), LVT_POLARITY, low)
    }

    /// Sets the timer mode in the timer's local vector table entry.
    pub fn set_timer_mode(&mut self, mode: TimerMode)
        ensures
            field_written(
                final(self).ops(),
                old(self).ops(),
                LVT_TIMER,
                field(17, 19),
                timer_mode_bits(mode),
            ),
    {
        self.regs.write_field(LVT_TIMER, BitField::new(17, 19), mode.into_u64())
    }

    /// Sets the timer's divide ratio.
    pub fn set_timer_divide(&mut self, divide: TimerDivide)
        ensures
            field_written(
                final(self).ops(),
                old(self).ops(),
                TDCR,
                field(0, 4),
                timer_divide_bits(divide),
            ),
    {
        self.regs.write_field(TDCR, BitField::new(0, 4), divide.into_u64())
    }

    /// Sets the timer's initial count; a nonzero count starts the countdown.
    pub fn set_timer_initial(&mut self, count: u32)
        ensures
            reg_written(final(self).ops(), old(self).ops(), TICR, count as u64),
    {
        self.regs.write(TICR, count as u64)
    }

    /// The timer's current count.
    pub fn timer_current(&mut self) -> (r: u32)
        ensures
            field_read(final(self).ops(), old(self).ops(), TCCR, field(0, 32), r as u64),
    {
        proof {
            lemma_low_mask_values();
        }
        let v = self.regs.read_field(TCCR, BitField::new(0, 32));
        v as u32
    }

    /// Arms the timer in absolute-deadline mode: it fires when the time-stamp
    /// counter reaches `deadline`.
    pub fn set_tsc_deadline(&mut self, deadline: u64)
        ensures
            reg_written(final(self).ops(), old(self).ops(), IA32_TSC_DEADLINE, deadline),
    {
        self.regs.write(IA32_TSC_DEADLINE, deadline)
    }
}

} // verus!
