use std::collections::HashMap;
use x2apic::ioapic::irq_entry::{hi, lo, IrqFlags, IrqMode};
use x2apic::ioapic::{IoApic, IoApicBus, ARBITRATION, ID, VERSION};

#[derive(Default)]
struct MemBus {
    regs: HashMap<u32, u32>,
    writes: Vec<(u32, u32)>,
}

impl MemBus {
    fn get(&self, reg: u32) -> u32 {
        *self.regs.get(&reg).unwrap_or(&0)
    }
}

impl IoApicBus for MemBus {
    fn read(&mut self, reg: u32) -> u32 {
        self.get(reg)
    }

    fn write(&mut self, reg: u32, value: u32) {
        self.regs.insert(reg, value);
        self.writes.push((reg, value));
    }
}

fn apic_with(regs: &[(u32, u32)]) -> IoApic<MemBus> {
    let mut bus = MemBus::default();
    for &(r, v) in regs {
        bus.regs.insert(r, v);
    }
    IoApic::new(bus)
}

#[test]
fn selectors_of_entries() {
    assert_eq!(lo(0), 0x10);
    assert_eq!(hi(0), 0x11);
    assert_eq!(lo(5), 0x1a);
    assert_eq!(hi(5), 0x1b);
    for n in 0u8..240 {
        assert_eq!(hi(n), lo(n) + 1);
        assert_eq!(lo(n + 1), lo(n) + 2);
    }
}

#[test]
fn mode_and_flag_encodings() {
    assert_eq!(IrqMode::Fixed.as_u32(), 0x000);
    assert_eq!(IrqMode::LowestPriority.as_u32(), 0x100);
    assert_eq!(IrqMode::SystemManagement.as_u32(), 0x200);
    assert_eq!(IrqMode::NonMaskable.as_u32(), 0x400);
    assert_eq!(IrqMode::Init.as_u32(), 0x500);
    assert_eq!(IrqMode::External.as_u32(), 0x700);
    assert_eq!(IrqFlags::empty().bits(), 0);
    assert_eq!(IrqFlags::all().bits(), 0xa800);
    let f = IrqFlags { level_triggered: true, low_active: false, logical_dest: true };
    assert_eq!(f.bits(), 0x8800);
    assert_eq!(IrqFlags::from_bits_truncate(0xffff_ffff), IrqFlags::all());
}

#[test]
fn init_maps_lines_to_offset_vectors() {
    // Highest index 23; stale configuration in every entry.
    let mut regs = vec![(VERSION, 0x0017_0011)];
    for i in 0u8..24 {
        regs.push((lo(i), 0x0001_a7ff));
        regs.push((hi(i), 0xff00_0000));
    }
    let mut apic = apic_with(&regs);
    apic.init(32);
    let bus = apic.bus();
    assert_eq!(bus.get(lo(5)) & 0xff, 37);
    assert_eq!(bus.get(lo(5)) & 0x1_0000, 0);
    assert_eq!(bus.get(lo(23)) & 0xff, 55);
    for i in 0u8..24 {
        assert_eq!(bus.get(lo(i)), 32 + i as u32);
        assert_eq!(bus.get(hi(i)), 0);
    }
    assert_eq!(bus.get(lo(24)), 0);
    assert_eq!(bus.writes.len(), 48);
}

#[test]
fn init_vectors_wrap_modulo_256() {
    let mut apic = apic_with(&[(VERSION, 0x0003_0011)]);
    apic.init(254);
    let bus = apic.bus();
    assert_eq!(bus.get(lo(0)), 254);
    assert_eq!(bus.get(lo(1)), 255);
    assert_eq!(bus.get(lo(2)), 0);
    assert_eq!(bus.get(lo(3)), 1);
}

#[test]
fn enable_irq_replaces_previous_configuration() {
    let mut apic = apic_with(&[(lo(3), 0x0001_af42), (hi(3), 0xff12_3456)]);
    apic.enable_irq(3, 0x1_0007, IrqMode::LowestPriority, IrqFlags {
        level_triggered: false,
        low_active: true,
        logical_dest: false,
    });
    let bus = apic.bus();
    let low = bus.get(lo(3));
    assert_eq!(low & 0x1_0000, 0);
    assert_eq!(low & 0x700, 0x100);
    assert_eq!(low & 0xa800, 0x2000);
    assert_eq!(low & 0xff, 0x42);
    assert_eq!(bus.get(hi(3)), 0x0712_3456);
    // The mask bit is cleared by the last write, after the rest is in place.
    let last = *bus.writes.last().unwrap();
    assert_eq!(last, (lo(3), 0x2142));
    assert_eq!(bus.writes[0].0, hi(3));
    assert_eq!(bus.writes[2].1 & 0x1_0000, 0x1_0000);
}

#[test]
fn disable_irq_keeps_configuration() {
    let mut apic = apic_with(&[(lo(7), 0x0001_0000)]);
    apic.enable_irq(7, 2, IrqMode::External, IrqFlags::all());
    let before_lo = apic.bus().get(lo(7));
    let before_hi = apic.bus().get(hi(7));
    apic.disable_irq(7);
    let bus = apic.bus();
    assert_eq!(bus.get(lo(7)), before_lo | 0x1_0000);
    assert_eq!(bus.get(lo(7)) & 0x700, 0x700);
    assert_eq!(bus.get(lo(7)) & 0xa800, 0xa800);
    assert_eq!(bus.get(hi(7)), before_hi);
    assert_eq!(bus.get(hi(7)) >> 24, 2);
}

#[test]
fn identity_version_and_arbitration() {
    let mut apic = apic_with(&[(ID, 0x0b00_0000), (VERSION, 0x0017_0020), (ARBITRATION, 0x0500_0000)]);
    assert_eq!(apic.id(), 0xb);
    assert_eq!(apic.version(), 0x20);
    assert_eq!(apic.max_table_entry(), 23);
    assert_eq!(apic.arbitration_id(), 5);
    apic.set_id(0x13);
    apic.set_arbitration_id(0x7);
    assert_eq!(apic.bus().get(ID), 0x0300_0000);
    assert_eq!(apic.id(), 3);
    assert_eq!(apic.bus().get(ARBITRATION), 0x0700_0000);
}
