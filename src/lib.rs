//! An interface to the x2APIC interrupt architecture: the per-core local
//! APIC, reached through model-specific registers, and the I/O APIC, reached
//! through a memory-mapped register window.
//!
//! Register access goes through small transport traits, so that the field
//! encoding and the order of register accesses do not depend on the
//! hardware. Every controller records the register transactions it makes;
//! the contracts state that record exactly, and the laws of the I/O APIC
//! state what it leaves in a register file that behaves as memory.

pub mod bitfield;
pub mod bus;
pub mod ioapic;
pub mod lapic;
