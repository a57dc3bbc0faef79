use std::cell::RefCell;
use std::collections::HashMap;
use std::rc::Rc;
use x2apic::lapic::lapic_msr::{
    ErrorFlags, IpiAllShorthand, IpiDeliveryMode, IpiDestMode, MsrBus, TimerDivide, TimerMode,
    EOI, ERROR, ICR, ID, IRR_0, ISR_0, LDR, LVT_ERROR, LVT_LINT0, LVT_LINT1, LVT_PERF, LVT_TIMER, SEND_ACCEPT_ERROR,
    SEND_ILLEGAL_VECTOR, SELF_IPI, SIVR, TCCR, TDCR, TICR, TPR, VERSION,
};
use x2apic::lapic::{LocalApic, LocalLine, LvtDeliveryMode, LvtSource};

/// Registers as memory, except the error status register: errors are
/// detected into a shared accumulator, and a write moves them into the
/// readable register.
#[derive(Default)]
struct MsrFile {
    regs: HashMap<u32, u64>,
    writes: Vec<(u32, u64)>,
    detected: Rc<RefCell<u64>>,
}

impl MsrFile {
    fn get(&self, reg: u32) -> u64 {
        *self.regs.get(&reg).unwrap_or(&0)
    }
}

impl MsrBus for MsrFile {
    fn read(&mut self, reg: u32) -> u64 {
        self.get(reg)
    }

    fn write(&mut self, reg: u32, value: u64) {
        self.writes.push((reg, value));
        if reg == ERROR {
            let d = self.detected.replace(0);
            self.regs.insert(ERROR, d);
        } else {
            self.regs.insert(reg, value);
        }
    }
}

fn apic_with(regs: &[(u32, u64)]) -> LocalApic<MsrFile> {
    let mut bus = MsrFile::default();
    for &(r, v) in regs {
        bus.regs.insert(r, v);
    }
    LocalApic::new(bus)
}

#[test]
fn enum_encodings() {
    assert_eq!(TimerMode::OneShot.into_u64(), 0b00);
    assert_eq!(TimerMode::Periodic.into_u64(), 0b01);
    assert_eq!(TimerMode::TscDeadline.into_u64(), 0b10);
    let divs = [
        (TimerDivide::Div2, 0b0000),
        (TimerDivide::Div4, 0b0001),
        (TimerDivide::Div8, 0b0010),
        (TimerDivide::Div16, 0b0011),
        (TimerDivide::Div32, 0b1000),
        (TimerDivide::Div64, 0b1001),
        (TimerDivide::Div128, 0b1010),
        (TimerDivide::Div256, 0b1011),
    ];
    for (d, v) in divs {
        assert_eq!(d.into_u64(), v);
    }
    assert_eq!(IpiDeliveryMode::Fixed.into_u64(), 0b000);
    assert_eq!(IpiDeliveryMode::LowestPriority.into_u64(), 0b001);
    assert_eq!(IpiDeliveryMode::SystemManagement.into_u64(), 0b010);
    assert_eq!(IpiDeliveryMode::NonMaskable.into_u64(), 0b100);
    assert_eq!(IpiDeliveryMode::Init.into_u64(), 0b101);
    assert_eq!(IpiDeliveryMode::StartUp.into_u64(), 0b110);
    assert_eq!(IpiAllShorthand::AllIncludingSelf.into_u64(), 0b10);
    assert_eq!(IpiAllShorthand::AllExcludingSelf.into_u64(), 0b11);
}

#[test]
fn shorthand_ipi_to_all_excluding_self() {
    let mut apic = apic_with(&[]);
    apic.send_ipi_all(0x30, IpiDeliveryMode::Fixed, IpiAllShorthand::AllExcludingSelf);
    let bus = apic.bus();
    assert_eq!(bus.writes.len(), 1);
    let (reg, value) = bus.writes[0];
    assert_eq!(reg, ICR);
    assert_eq!(value & 0xffff_ffff, (0b11 << 18) | (0b000 << 8) | 0x30);
}

#[test]
fn shorthand_ipi_to_all_including_self() {
    let mut apic = apic_with(&[]);
    apic.send_ipi_all(0xfe, IpiDeliveryMode::NonMaskable, IpiAllShorthand::AllIncludingSelf);
    assert_eq!(apic.bus().writes[0], (ICR, (0b10 << 18) | (0b100 << 8) | 0xfe));
}

#[test]
fn explicit_destination_ipi() {
    let mut apic = apic_with(&[]);
    apic.send_ipi(0x40, 3, IpiDeliveryMode::Init, IpiDestMode::Logical, true, true);
    let expected = (3u64 << 32) | (1 << 15) | (1 << 14) | (1 << 11) | (0b101 << 8) | 0x40;
    assert_eq!(apic.bus().writes, vec![(ICR, expected)]);
    let mut apic = apic_with(&[]);
    apic.send_ipi(0x20, 0xffff_ffff, IpiDeliveryMode::Fixed, IpiDestMode::Physical, false, false);
    assert_eq!(apic.bus().writes, vec![(ICR, 0xffff_ffff_0000_0020)]);
    apic.send_ipi_self(0x99);
    assert_eq!(apic.bus().writes[1], (SELF_IPI, 0x99));
}

#[test]
fn error_status_rearmed_by_write_of_zero() {
    let mut apic = apic_with(&[]);
    let detected = apic.bus().detected.clone();
    // A fault from before the clear is not reported afterwards.
    *detected.borrow_mut() = SEND_ACCEPT_ERROR as u64;
    apic.clear_errors();
    *detected.borrow_mut() = SEND_ILLEGAL_VECTOR as u64;
    let flags = apic.error_flags();
    assert_eq!(flags, ErrorFlags { bits: SEND_ILLEGAL_VECTOR });
    assert!(flags.contains(SEND_ILLEGAL_VECTOR));
    assert!(!flags.contains(SEND_ACCEPT_ERROR));
    assert_eq!(apic.bus().writes, vec![(ERROR, 0), (ERROR, 0)]);
    // Nothing new since: the next re-armed read is empty.
    assert!(apic.error_flags().is_empty());
}

#[test]
fn read_errors_does_not_write() {
    let mut apic = apic_with(&[(ERROR, 0x1_0080)]);
    assert_eq!(apic.read_errors().bits, 0x80);
    assert!(apic.bus().writes.is_empty());
}

#[test]
fn identity_version_priority() {
    let mut apic = apic_with(&[(ID, 0x0a00_0000), (VERSION, 0x0106_0015), (TPR, 0x20)]);
    assert_eq!(apic.id(), 0xa);
    assert_eq!(apic.version(), 0x15);
    assert_eq!(apic.max_lvt_entry(), 6);
    assert!(apic.has_eoi_bcast_suppression());
    assert_eq!(apic.task_priority(), 0x20);
    apic.set_task_priority(0x51);
    assert_eq!(apic.bus().get(TPR), 0x51);
    apic.set_id(0x1f);
    assert_eq!(apic.bus().get(ID), 0x0f00_0000);
    assert!(!apic.is_bsp());
}

#[test]
fn logical_id_spurious_and_eoi() {
    let mut apic = apic_with(&[(SIVR, 0x1ff)]);
    apic.set_logical_id(0x81);
    assert_eq!(apic.bus().get(LDR), 0x8100_0000);
    assert_eq!(apic.logical_id(), 0x81);
    assert_eq!(apic.spurious_vector(), 0xff);
    assert!(apic.is_software_enabled());
    apic.set_software_enabled(false);
    apic.set_spurious_vector(0x27);
    apic.set_eoi_bcast_suppression(true);
    apic.set_focus_checking_disabled(true);
    assert_eq!(apic.bus().get(SIVR), 0x1227);
    assert!(apic.is_eoi_bcast_suppressed());
    assert!(apic.is_focus_checking_disabled());
    apic.end_of_interrupt();
    assert_eq!(*apic.bus().writes.last().unwrap(), (EOI, 0));
}

#[test]
fn pending_bitmaps_select_register_and_bit() {
    let mut apic = apic_with(&[(ISR_0 + 2, 1 << 5), (IRR_0 + 7, 1 << 31)]);
    assert!(apic.is_in_service(0x45));
    assert!(!apic.is_in_service(0x44));
    assert!(!apic.is_in_service(0x25));
    assert!(apic.is_requested(255));
    assert!(!apic.is_requested(254));
    assert!(!apic.is_level_triggered(0x45));
}

#[test]
fn lvt_and_timer() {
    let mut apic = apic_with(&[(LVT_TIMER, 0x1_0000), (TCCR, 1234)]);
    apic.set_lvt_vector(LvtSource::Timer, 0x31);
    apic.set_timer_mode(TimerMode::Periodic);
    assert!(apic.is_lvt_masked(LvtSource::Timer));
    apic.set_lvt_masked(LvtSource::Timer, false);
    assert_eq!(apic.bus().get(LVT_TIMER), 0x2_0031);
    assert_eq!(apic.lvt_vector(LvtSource::Timer), 0x31);
    apic.set_lvt_masked(LvtSource::Error, true);
    assert_eq!(apic.bus().get(LVT_ERROR), 0x1_0000);
    apic.set_timer_divide(TimerDivide::Div64);
    assert_eq!(apic.bus().get(TDCR), 0b1001);
    apic.set_timer_initial(1_000_000);
    assert_eq!(apic.bus().get(TICR), 1_000_000);
    assert_eq!(apic.timer_current(), 1234);
    apic.set_timer_mode(TimerMode::TscDeadline);
    assert_eq!(apic.bus().get(LVT_TIMER) >> 17, 0b10);
    apic.set_tsc_deadline(0x1234_5678_9abc);
    assert_eq!(*apic.bus().writes.last().unwrap(), (0x6e0, 0x1234_5678_9abc));
}

#[test]
fn local_line_entries() {
    let mut apic = apic_with(&[(LVT_LINT1, 0x1_0000)]);
    apic.set_lvt_delivery_mode(LvtSource::Lint1, LvtDeliveryMode::NonMaskable);
    apic.set_lint_level_triggered(LocalLine::Lint1, true);
    apic.set_lint_low_active(LocalLine::Lint1, true);
    assert_eq!(apic.lvt_entry(LvtSource::Lint1), 0x1_a400);
    apic.set_lvt_delivery_mode(LvtSource::Lint0, LvtDeliveryMode::External);
    assert_eq!(apic.bus().get(LVT_LINT0), 0x700);
    apic.set_lvt_delivery_mode(LvtSource::Performance, LvtDeliveryMode::Fixed);
    assert_eq!(apic.bus().get(LVT_PERF), 0);
    apic.set_lint_level_triggered(LocalLine::Lint1, false);
    assert_eq!(apic.bus().get(LVT_LINT1), 0x1_2400);
    assert_eq!(LvtDeliveryMode::SystemManagement.into_u64(), 0b010);
    assert_eq!(LvtDeliveryMode::Init.into_u64(), 0b101);
}
