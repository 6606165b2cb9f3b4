//! Interrupts and traps of the ULP RISC-V cores.

pub mod critical_section;
pub mod ulp_core;

pub use ulp_core::{
    irq_to_mcause, mie_impl, mie_new_mask, mie_was_enabled, ulp_setup_interrupts, CoreException,
    CoreInterrupt, Error, ExternalInterrupt, IrqMask, Trap, IRQ_BIT_BUS_ERROR,
    IRQ_BIT_ILLEGAL_INSTRUCTION, IRQ_BIT_RTC_PERIPHERAL, IRQ_BIT_TIMER, IRQ_MASK_ALL,
    MAX_INTERRUPT_NUMBER,
};
