use esp_lp_hal::interrupt::critical_section::UlpCriticalSection;
use esp_lp_hal::interrupt::{
    irq_to_mcause, mie_impl, mie_new_mask, mie_was_enabled, ulp_setup_interrupts, Error,
    ExternalInterrupt, IrqMask, Trap, IRQ_BIT_BUS_ERROR, IRQ_BIT_ILLEGAL_INSTRUCTION,
    IRQ_BIT_RTC_PERIPHERAL, IRQ_BIT_TIMER, IRQ_MASK_ALL, MAX_INTERRUPT_NUMBER,
};

#[test]
fn rtc_peripheral_irq_is_machine_external() {
    assert_eq!(irq_to_mcause(1 << 31), Some(Trap::Interrupt(11)));
}

#[test]
fn timer_irq_is_machine_timer() {
    assert_eq!(irq_to_mcause(1 << 0), Some(Trap::Interrupt(7)));
}

#[test]
fn illegal_instruction_irq_is_exception() {
    assert_eq!(irq_to_mcause(1 << 1), Some(Trap::Exception(2)));
}

#[test]
fn bus_error_irq_is_load_misaligned() {
    assert_eq!(irq_to_mcause(1 << 2), Some(Trap::Exception(4)));
}

#[test]
fn no_source_gives_no_trap() {
    assert_eq!(irq_to_mcause(0), None);
    assert_eq!(irq_to_mcause(0x7fff_fff8), None);
}

#[test]
fn irq_priority_order() {
    assert_eq!(irq_to_mcause(0xffff_ffff), Some(Trap::Interrupt(11)));
    assert_eq!(irq_to_mcause(IRQ_BIT_TIMER | IRQ_BIT_BUS_ERROR), Some(Trap::Interrupt(7)));
    assert_eq!(
        irq_to_mcause(IRQ_BIT_ILLEGAL_INSTRUCTION | IRQ_BIT_BUS_ERROR),
        Some(Trap::Exception(2))
    );
}

#[test]
fn other_bits_are_ignored() {
    for cause in [0u32, 1, 2, 3, 4, 5, 6, 7, 0x8000_0000, 0x8000_0005] {
        for noise in [0u32, 0x10, 0x100, 0x7fff_fff8] {
            assert_eq!(irq_to_mcause(cause | noise), irq_to_mcause(cause));
        }
    }
    assert_eq!(IRQ_MASK_ALL, IRQ_BIT_RTC_PERIPHERAL | 0x7);
}

#[test]
fn external_interrupt_numbers() {
    assert_eq!(ExternalInterrupt::SAR.number(), 0);
    assert_eq!(ExternalInterrupt::GPIO.number(), 1);
    assert_eq!(MAX_INTERRUPT_NUMBER, 1);
}

#[test]
fn external_interrupt_from_number() {
    assert_eq!(ExternalInterrupt::from_number(0), Ok(ExternalInterrupt::SAR));
    assert_eq!(ExternalInterrupt::from_number(1), Ok(ExternalInterrupt::GPIO));
    assert_eq!(ExternalInterrupt::from_number(2), Err(Error::InvalidVariant(2)));
    assert_eq!(
        ExternalInterrupt::from_number(usize::MAX),
        Err(Error::InvalidVariant(usize::MAX))
    );
}

#[test]
fn external_interrupt_round_trip() {
    for i in [ExternalInterrupt::SAR, ExternalInterrupt::GPIO] {
        assert!(i.number() <= MAX_INTERRUPT_NUMBER);
        assert_eq!(ExternalInterrupt::from_number(i.number()), Ok(i));
    }
}

#[test]
fn mie_masks() {
    assert_eq!(mie_new_mask(true), 0);
    assert_eq!(mie_new_mask(false), 0x8000_0000);
    assert!(mie_was_enabled(0));
    assert!(mie_was_enabled(0x7));
    assert!(!mie_was_enabled(0x8000_0000));
    assert!(!mie_was_enabled(0x8000_0007));
}

#[test]
fn maskirq_swaps() {
    let mut mask = IrqMask { bits: 0x1234 };
    assert_eq!(mask.maskirq(0x8000_0000), 0x1234);
    assert_eq!(mask.bits, 0x8000_0000);
}

#[test]
fn mie_impl_reports_previous_state() {
    let mut mask = IrqMask { bits: 0 };
    assert!(mie_impl(&mut mask, false));
    assert_eq!(mask.bits, 0x8000_0000);
    assert!(!mie_impl(&mut mask, false));
    assert!(!mie_impl(&mut mask, true));
    assert_eq!(mask.bits, 0);
    assert!(mie_impl(&mut mask, true));
}

#[test]
fn mie_impl_unmasks_exceptions() {
    let mut mask = IrqMask { bits: 0x8000_0007 };
    assert!(!mie_impl(&mut mask, false));
    assert_eq!(mask.bits & 0x7, 0);
}

#[test]
fn setup_enables_external_interrupt() {
    let mut mask = IrqMask { bits: 0x8000_0007 };
    ulp_setup_interrupts(&mut mask);
    assert_eq!(mask.bits, 0);
}

#[test]
fn critical_section_restores_enabled() {
    let mut mask = IrqMask { bits: 0 };
    let state = UlpCriticalSection::acquire(&mut mask);
    assert!(state);
    assert_eq!(mask.bits, 0x8000_0000);
    UlpCriticalSection::release(&mut mask, state);
    assert_eq!(mask.bits, 0);
}

#[test]
fn critical_section_nested() {
    let mut mask = IrqMask { bits: 0 };
    let outer = UlpCriticalSection::acquire(&mut mask);
    let inner = UlpCriticalSection::acquire(&mut mask);
    assert!(!inner);
    UlpCriticalSection::release(&mut mask, inner);
    assert_eq!(mask.bits, 0x8000_0000);
    UlpCriticalSection::release(&mut mask, outer);
    assert_eq!(mask.bits, 0);
}

#[test]
fn critical_section_keeps_disabled() {
    let mut mask = IrqMask { bits: 0x8000_0000 };
    let state = UlpCriticalSection::acquire(&mut mask);
    assert!(!state);
    UlpCriticalSection::release(&mut mask, state);
    assert_eq!(mask.bits, 0x8000_0000);
}
