//! Redirection table entries: their register selectors, delivery modes and
//! flags.

use super::TABLE_BASE;
use vstd::prelude::*;

verus! {

/// Mask bit of a redirection entry's low half: set, the line never delivers.
pub const IRQ_MASK_BIT: u32 = 0x0001_0000;

/// Delivery-mode field of a redirection entry's low half.
pub const IRQ_MODE_MASK: u32 = 0x0000_0700;

/// Level-triggered interrupt (vs edge-triggered).
pub const IRQ_LEVEL_TRIGGERED: u32 = 0x0000_8000;

/// Low-polarity interrupt signal (vs high-polarity).
pub const IRQ_LOW_ACTIVE: u32 = 0x0000_2000;

/// Logical destination mode (vs physical).
pub const IRQ_LOGICAL_DEST: u32 = 0x0000_0800;

/// All flag bits of a redirection entry's low half.
pub const IRQ_FLAGS_ALL: u32 = 0x0000_a800;

/// Vector field of a redirection entry's low half.
pub const IRQ_VECTOR_MASK: u32 = 0x0000_00ff;

/// I/O APIC interrupt delivery modes.
#[derive(Clone, Copy, Debug, PartialEq, Eq, Structural)]
pub enum IrqMode {
    /// Asserts the INTR signal on all allowed processors.
    Fixed,
    /// Asserts the INTR signal on the lowest priority processor allowed.
    LowestPriority,
    /// System management interrupt. Requires edge-triggering.
    SystemManagement,
    /// Asserts the NMI signal on all allowed processors. Requires
    /// edge-triggering.
    NonMaskable,
    /// Asserts the INIT signal on all allowed processors. Requires
    /// edge-triggering.
    Init,
    /// Asserts the INTR signal as a signal that originated in an
    /// externally-connected interrupt controller. Requires edge-triggering.
    External,
}

/// The encoding of `mode` in the delivery-mode field of an entry's low half.
pub open spec fn irq_mode_bits(mode: IrqMode) -> u32 {
    match mode {
        IrqMode::Fixed => 0x0000_0000,
        IrqMode::LowestPriority => 0x0000_0100,
        IrqMode::SystemManagement => 0x0000_0200,
        IrqMode::NonMaskable => 0x0000_0400,
        IrqMode::Init => 0x0000_0500,
        IrqMode::External => 0x0000_0700,
    }
}

impl IrqMode {
    /// The delivery-mode field value for this mode.
    pub fn as_u32(self) -> (r: u32)
        ensures
            r == irq_mode_bits(self),
            r & !IRQ_MODE_MASK == 0,
    {
        let r: u32 = match self {
            IrqMode::Fixed => 0x0000_0000,
            IrqMode::LowestPriority => 0x0000_0100,
            IrqMode::SystemManagement => 0x0000_0200,
            IrqMode::NonMaskable => 0x0000_0400,
            IrqMode::Init => 0x0000_0500,
            IrqMode::External => 0x0000_0700,
        };
        assert(r & !0x0000_0700u32 == 0) by (bit_vector)
            requires
                r == 0 || r == 0x100 || r == 0x200 || r == 0x400 || r == 0x500 || r == 0x700,
        ;
        r
    }
}

/// Redirection table entry flags.
#[derive(Clone, Copy, Debug, PartialEq, Eq, Structural)]
pub struct IrqFlags {
    /// Level-triggered interrupt (vs edge-triggered).
    pub level_triggered: bool,
    /// Low-polarity interrupt signal (vs high-polarity).
    pub low_active: bool,
    /// Logical destination mode (vs physical).
    pub logical_dest: bool,
}

/// The flag bits of an entry's low half that encode `f`.
pub open spec fn irq_flags_bits(f: IrqFlags) -> u32 {
    (if f.level_triggered { IRQ_LEVEL_TRIGGERED } else { 0u32 }) | (if f.low_active {
        IRQ_LOW_ACTIVE
    } else {
        0u32
    }) | (if f.logical_dest { IRQ_LOGICAL_DEST } else { 0u32 })
}

impl IrqFlags {
    /// No flag: edge-triggered, high-active, physical destination.
    pub fn empty() -> (r: IrqFlags)
        ensures
            !r.level_triggered && !r.low_active && !r.logical_dest,
    {
        IrqFlags { level_triggered: false, low_active: false, logical_dest: false }
    }

    /// Every flag.
    pub fn all() -> (r: IrqFlags)
        ensures
            r.level_triggered && r.low_active && r.logical_dest,
    {
        IrqFlags { level_triggered: true, low_active: true, logical_dest: true }
    }

    /// The flag bits of an entry's low half for these flags.
    pub fn bits(&self) -> (r: u32)
        ensures
            r == irq_flags_bits(*self),
            r & !IRQ_FLAGS_ALL == 0,
    {
        let a: u32 = if self.level_triggered { IRQ_LEVEL_TRIGGERED } else { 0 };
        let b: u32 = if self.low_active { IRQ_LOW_ACTIVE } else { 0 };
        let c: u32 = if self.logical_dest { IRQ_LOGICAL_DEST } else { 0 };
        assert((a | b | c) & !0xa800u32 == 0) by (bit_vector)
            requires
                a == 0 || a == 0x8000,
                b == 0 || b == 0x2000,
                c == 0 || c == 0x800,
        ;
        a | b | c
    }

    /// The flags encoded in the low half `v` of an entry.
    pub fn from_bits_truncate(v: u32) -> (r: IrqFlags)
        ensures
            r.level_triggered == (v & IRQ_LEVEL_TRIGGERED != 0),
            r.low_active == (v & IRQ_LOW_ACTIVE != 0),
            r.logical_dest == (v & IRQ_LOGICAL_DEST != 0),
    {
        IrqFlags {
            level_triggered: v & IRQ_LEVEL_TRIGGERED != 0,
            low_active: v & IRQ_LOW_ACTIVE != 0,
            logical_dest: v & IRQ_LOGICAL_DEST != 0,
        }
    }
}

/// Selector of the low half of the redirection entry of line `irq`.
pub open spec fn lo_spec(irq: u8) -> u32 {
    (TABLE_BASE + 2 * irq) as u32
}

/// Selector of the high half of the redirection entry of line `irq`.
pub open spec fn hi_spec(irq: u8) -> u32 {
    (lo_spec(irq) + 1) as u32
}

/// Gets the lower segment selector for `irq`.
pub fn lo(irq: u8) -> (r: u32)
    ensures
        r == lo_spec(irq),
{
    TABLE_BASE + (2 * irq as u32)
}

/// Gets the upper segment selector for `irq`.
pub fn hi(irq: u8) -> (r: u32)
    ensures
        r == hi_spec(irq),
{
    lo(irq) + 1
}

/// The two halves of an entry sit at consecutive selectors, and the entries
/// of consecutive lines are two selectors apart; no two selectors coincide.
pub proof fn lemma_selector_layout(n: u8, m: u8)
    ensures
        hi_spec(n) == lo_spec(n) + 1,
        n < 255 ==> lo_spec((n + 1) as u8) == lo_spec(n) + 2,
        n != m ==> lo_spec(n) != lo_spec(m) && hi_spec(n) != hi_spec(m),
        lo_spec(n) != hi_spec(m),
{
}

} // verus!
