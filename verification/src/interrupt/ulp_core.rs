//! Decoding of the ULP IRQ status word into RISC-V trap causes.

use riscv::interrupt::{Exception, Interrupt};
use riscv::{ExceptionNumber, InterruptNumber};
use vstd::prelude::*;

verus! {

/// IRQ status / mask bit 0: internal timer interrupt.
pub const IRQ_BIT_TIMER: u32 = 0x1;

/// IRQ status / mask bit 1: EBREAK, ECALL or illegal instruction.
pub const IRQ_BIT_ILLEGAL_INSTRUCTION: u32 = 0x2;

/// IRQ status / mask bit 2: bus error (unaligned memory access).
pub const IRQ_BIT_BUS_ERROR: u32 = 0x4;

/// IRQ status / mask bit 31: RTC peripheral interrupts.
pub const IRQ_BIT_RTC_PERIPHERAL: u32 = 0x8000_0000;

/// The standard RISC-V machine-mode interrupts that a ULP IRQ stands for.
#[derive(Copy, Clone, Debug, PartialEq, Eq, Structural)]
pub enum CoreInterrupt {
    /// Machine timer interrupt.
    MachineTimer,
    /// Machine external interrupt.
    MachineExternal,
}

/// The standard RISC-V exceptions that a ULP IRQ stands for.
#[derive(Copy, Clone, Debug, PartialEq, Eq, Structural)]
pub enum CoreException {
    /// Illegal instruction.
    IllegalInstruction,
    /// Misaligned load address.
    LoadMisaligned,
}

/// The `mcause` code of a standard machine-mode interrupt.
pub open spec fn interrupt_code(i: CoreInterrupt) -> usize {
    match i {
        CoreInterrupt::MachineTimer => 7,
        CoreInterrupt::MachineExternal => 11,
    }
}

/// The `mcause` code of a standard exception.
pub open spec fn exception_code(e: CoreException) -> usize {
    match e {
        CoreException::IllegalInstruction => 2,
        CoreException::LoadMisaligned => 4,
    }
}

/// `riscv::InterruptNumber::number` of `riscv::interrupt::Interrupt`: the
/// enum's discriminant, which the `riscv` crate fixes at 7 for `MachineTimer`
/// and 11 for `MachineExternal`.
#[verifier::external_body]
fn interrupt_number(i: CoreInterrupt) -> (r: usize)
    ensures
        r == interrupt_code(i),
{
    let outside = match i {
        CoreInterrupt::MachineTimer => Interrupt::MachineTimer,
        CoreInterrupt::MachineExternal => Interrupt::MachineExternal,
    };
    outside.number()
}

/// `riscv::ExceptionNumber::number` of `riscv::interrupt::Exception`: the
/// enum's discriminant, which the `riscv` crate fixes at 2 for
/// `IllegalInstruction` and 4 for `LoadMisaligned`.
#[verifier::external_body]
fn exception_number(e: CoreException) -> (r: usize)
    ensures
        r == exception_code(e),
{
    let outside = match e {
        CoreException::IllegalInstruction => Exception::IllegalInstruction,
        CoreException::LoadMisaligned => Exception::LoadMisaligned,
    };
    outside.number()
}

/// A trap cause in its generic form: an interrupt or an exception, each
/// given by its `mcause` code (as `riscv::interrupt::Trap<usize, usize>`).
#[derive(Copy, Clone, Debug, PartialEq, Eq, Structural)]
pub enum Trap {
    /// An interrupt with the given code.
    Interrupt(usize),
    /// An exception with the given code.
    Exception(usize),
}

/// Whether the IRQ word `word` has any bit of `bit` set.
pub open spec fn has_bit(word: u32, bit: u32) -> bool {
    word & bit != 0
}

/// The trap that an IRQ status word stands for. The RTC peripheral
/// interrupt comes first, then the timer, the illegal instruction and the
/// bus error; a word with none of these bits stands for no trap.
pub open spec fn trap_of_irqs(cause: u32) -> Option<Trap> {
    if has_bit(cause, IRQ_BIT_RTC_PERIPHERAL) {
        Some(Trap::Interrupt(interrupt_code(CoreInterrupt::MachineExternal)))
    } else if has_bit(cause, IRQ_BIT_TIMER) {
        Some(Trap::Interrupt(interrupt_code(CoreInterrupt::MachineTimer)))
    } else if has_bit(cause, IRQ_BIT_ILLEGAL_INSTRUCTION) {
        Some(Trap::Exception(exception_code(CoreException::IllegalInstruction)))
    } else if has_bit(cause, IRQ_BIT_BUS_ERROR) {
        Some(Trap::Exception(exception_code(CoreException::LoadMisaligned)))
    } else {
        None
    }
}

/// Converts an IRQ bitmask value into a riscv-rt-compatible trap cause
/// (interrupt or exception).
pub fn irq_to_mcause(cause: u32) -> (r: Option<Trap>)
    ensures
        r == trap_of_irqs(cause),
        (cause & 0x8000_0000) != 0 ==> r == Some(Trap::Interrupt(11)),
        (cause & 0x8000_0000) == 0 && (cause & 0x1) != 0 ==> r == Some(Trap::Interrupt(7)),
        (cause & 0x8000_0001) == 0 && (cause & 0x2) != 0 ==> r == Some(Trap::Exception(2)),
        (cause & 0x8000_0003) == 0 && (cause & 0x4) != 0 ==> r == Some(Trap::Exception(4)),
        (cause & 0x8000_0007) == 0 ==> r is None,
{
    proof {
        lemma_irq_decoding(cause);
    }
    if cause & IRQ_BIT_RTC_PERIPHERAL != 0 {
        return Some(Trap::Interrupt(interrupt_number(CoreInterrupt::MachineExternal)));
    }
    if cause & IRQ_BIT_TIMER != 0 {
        return Some(Trap::Interrupt(interrupt_number(CoreInterrupt::MachineTimer)));
    }
    if cause & IRQ_BIT_ILLEGAL_INSTRUCTION != 0 {
        return Some(Trap::Exception(exception_number(CoreException::IllegalInstruction)));
    }
    if cause & IRQ_BIT_BUS_ERROR != 0 {
        return Some(Trap::Exception(exception_number(CoreException::LoadMisaligned)));
    }
    None
}

/// All IRQ sources of the ULP core: the RTC peripheral interrupt, the bus
/// error, EBREAK/ECALL/illegal instruction and the internal timer.
pub const IRQ_MASK_ALL: u32 = 0x8000_0007;

/// Only the four IRQ sources of the ULP core decide the trap: any other bit
/// of the status word is ignored.
pub proof fn lemma_irq_to_mcause_ignores_other_bits(cause: u32)
    ensures
        trap_of_irqs(cause) == trap_of_irqs(cause & IRQ_MASK_ALL),
{
    assert(((cause & 0x8000_0000u32) != 0) == (((cause & 0x8000_0007u32) & 0x8000_0000u32) != 0))
        by (bit_vector);
    assert(((cause & 0x1u32) != 0) == (((cause & 0x8000_0007u32) & 0x1u32) != 0)) by (bit_vector);
    assert(((cause & 0x2u32) != 0) == (((cause & 0x8000_0007u32) & 0x2u32) != 0)) by (bit_vector);
    assert(((cause & 0x4u32) != 0) == (((cause & 0x8000_0007u32) & 0x4u32) != 0)) by (bit_vector);
}

/// A status word stands for no trap exactly when none of the four IRQ
/// sources is set in it.
pub proof fn lemma_irq_to_mcause_none_iff_no_source(cause: u32)
    ensures
        trap_of_irqs(cause) is None <==> (cause & IRQ_MASK_ALL) == 0,
{
    assert(((cause & 0x8000_0007u32) == 0) == ((cause & 0x8000_0000u32) == 0 && (cause & 0x1u32)
        == 0 && (cause & 0x2u32) == 0 && (cause & 0x4u32) == 0)) by (bit_vector);
}

/// The decoding table of the ULP IRQ status word, in priority order: bit 31
/// (RTC peripheral) is the machine external interrupt (code 11); failing
/// that, bit 0 (internal timer) is the machine timer interrupt (code 7),
/// whatever bits 1 and 2 hold; failing both, bit 1 (EBREAK/ECALL/illegal
/// instruction) is the illegal instruction exception (code 2); failing all
/// three, bit 2 (bus error) is the misaligned load exception (code 4); a word
/// with none of these four bits is no trap.
pub proof fn lemma_irq_decoding(cause: u32)
    ensures
        (cause & 0x8000_0000) != 0 ==> trap_of_irqs(cause) == Some(Trap::Interrupt(11)),
        (cause & 0x8000_0000) == 0 && (cause & 0x1) != 0 ==> trap_of_irqs(cause) == Some(
            Trap::Interrupt(7),
        ),
        (cause & 0x8000_0001) == 0 && (cause & 0x2) != 0 ==> trap_of_irqs(cause) == Some(
            Trap::Exception(2),
        ),
        (cause & 0x8000_0003) == 0 && (cause & 0x4) != 0 ==> trap_of_irqs(cause) == Some(
            Trap::Exception(4),
        ),
        (cause & 0x8000_0007) == 0 ==> trap_of_irqs(cause) is None,
{
    assert(((cause & 0x8000_0001u32) == 0) == ((cause & 0x8000_0000u32) == 0 && (cause & 0x1u32)
        == 0)) by (bit_vector);
    assert(((cause & 0x8000_0003u32) == 0) == ((cause & 0x8000_0000u32) == 0 && (cause & 0x1u32)
        == 0 && (cause & 0x2u32) == 0)) by (bit_vector);
    assert(((cause & 0x8000_0007u32) == 0) == ((cause & 0x8000_0000u32) == 0 && (cause & 0x1u32)
        == 0 && (cause & 0x2u32) == 0 && (cause & 0x4u32) == 0)) by (bit_vector);
}

/// A pending RTC peripheral interrupt is reported as the machine external
/// interrupt, whatever else is pending.
pub proof fn lemma_irq_to_mcause_external_first(cause: u32)
    requires
        (cause & IRQ_BIT_RTC_PERIPHERAL) != 0,
    ensures
        trap_of_irqs(cause) == Some(Trap::Interrupt(11)),
{
}

/// The ULP core's interrupt mask register. A set bit masks (disables) the
/// IRQ source of that bit; the `maskirq` instruction writes a new mask and
/// hands back the one it replaced.
#[derive(Copy, Clone, Debug, PartialEq, Eq, Structural)]
pub struct IrqMask {
    /// The register's bits.
    pub bits: u32,
}

/// The mask that `mie_impl` writes: only the RTC peripheral bit is ever
/// masked, the internal exception bits always stay unmasked.
pub open spec fn mie_mask(enable: bool) -> u32 {
    if enable {
        0
    } else {
        IRQ_BIT_RTC_PERIPHERAL
    }
}

/// Whether a mask leaves the RTC peripheral (external) interrupt enabled.
pub open spec fn external_enabled(mask: u32) -> bool {
    (mask & IRQ_BIT_RTC_PERIPHERAL) == 0
}

/// The mask to write for enabling or disabling the external interrupt.
pub fn mie_new_mask(enable: bool) -> (r: u32)
    ensures
        r == mie_mask(enable),
        enable ==> r == 0,
        !enable ==> r == 0x8000_0000,
{
    let disable_bit: u32 = IRQ_BIT_RTC_PERIPHERAL;
    if enable {
        0
    } else {
        disable_bit
    }
}

/// Whether the mask that `maskirq` handed back had the external interrupt
/// enabled.
pub fn mie_was_enabled(old_mask: u32) -> (r: bool)
    ensures
        r == external_enabled(old_mask),
        r == ((old_mask & 0x8000_0000) == 0),
{
    (old_mask & IRQ_BIT_RTC_PERIPHERAL) == 0
}

impl IrqMask {
    /// The `maskirq` instruction: writes `new_mask` and returns the mask it
    /// replaced.
    pub fn maskirq(&mut self, new_mask: u32) -> (old_mask: u32)
        ensures
            old_mask == old(self).bits,
            final(self).bits == new_mask,
    {
        let old_mask = self.bits;
        self.bits = new_mask;
        old_mask
    }
}

/// Enables (`true`) or disables (`false`) the external interrupt and returns
/// whether it was enabled before. The internal exception bits end unmasked.
pub fn mie_impl(mask: &mut IrqMask, enable: bool) -> (was_enabled: bool)
    ensures
        final(mask).bits == mie_mask(enable),
        was_enabled == external_enabled(old(mask).bits),
        final(mask).bits == (if enable {
            0u32
        } else {
            0x8000_0000u32
        }),
        was_enabled == ((old(mask).bits & 0x8000_0000) == 0),
{
    proof {
        lemma_external_enabled_is_bit_31(old(mask).bits);
    }
    let new_mask = mie_new_mask(enable);
    let old_mask = mask.maskirq(new_mask);
    mie_was_enabled(old_mask)
}

/// Sets up the ULP interrupts: the external interrupt is enabled.
pub fn ulp_setup_interrupts(mask: &mut IrqMask)
    ensures
        final(mask).bits == mie_mask(true),
        external_enabled(final(mask).bits),
        final(mask).bits == 0,
{
    mie_impl(mask, true);
    proof {
        lemma_mie_mask_effect(true);
    }
}

/// Whether the external interrupt is enabled depends on bit 31 of the mask
/// alone: enabled exactly when that bit is clear. `mie_impl` writes 0 to
/// enable it and only bit 31 to disable it.
pub proof fn lemma_external_enabled_is_bit_31(mask: u32)
    ensures
        external_enabled(mask) <==> (mask & 0x8000_0000) == 0,
        external_enabled(mask) == external_enabled(mask & 0x8000_0000),
        external_enabled(0),
        !external_enabled(0x8000_0000),
        !external_enabled(0xffff_ffff),
        mie_mask(true) == 0,
        mie_mask(false) == 0x8000_0000,
{
    assert(((mask & 0x8000_0000u32) == 0) == (((mask & 0x8000_0000u32) & 0x8000_0000u32) == 0))
        by (bit_vector);
    assert((0u32 & 0x8000_0000u32) == 0) by (bit_vector);
    assert((0x8000_0000u32 & 0x8000_0000u32) != 0) by (bit_vector);
    assert((0xffff_ffffu32 & 0x8000_0000u32) != 0) by (bit_vector);
}

/// What `mie_impl` leaves behind: the external interrupt enabled exactly when
/// asked, and the internal exceptions (bits 0 to 2) always unmasked.
pub proof fn lemma_mie_mask_effect(enable: bool)
    ensures
        external_enabled(mie_mask(enable)) == enable,
        (mie_mask(enable) & 0x7) == 0,
{
    assert((0x8000_0000u32 & 0x8000_0000u32) != 0) by (bit_vector);
    assert((0x8000_0000u32 & 0x7u32) == 0) by (bit_vector);
    assert((0u32 & 0x8000_0000u32) == 0) by (bit_vector);
    assert((0u32 & 0x7u32) == 0) by (bit_vector);
}

/// A sample external interrupt source of the ULP core, numbered for the
/// `riscv` crate's external interrupt handling.
#[derive(Copy, Clone, Debug, PartialEq, Eq, Structural)]
pub enum ExternalInterrupt {
    /// Interrupt from an SAR peripheral
    SAR,
    /// Interrupt from the RTC_IO peripheral
    GPIO,
}

/// Why a number names no interrupt (as `riscv::result::Error`).
#[derive(Copy, Clone, Debug, PartialEq, Eq, Structural)]
pub enum Error {
    /// The number matches no variant.
    InvalidVariant(usize),
}

/// Highest number assigned to an `ExternalInterrupt`.
pub const MAX_INTERRUPT_NUMBER: usize = 1;

impl ExternalInterrupt {
    /// The number of an external interrupt source.
    pub open spec fn code(self) -> usize {
        match self {
            ExternalInterrupt::SAR => 0,
            ExternalInterrupt::GPIO => 1,
        }
    }

    /// The external interrupt that a number names, or the error for it.
    pub open spec fn from_code(value: usize) -> Result<ExternalInterrupt, Error> {
        if value == 0 {
            Ok(ExternalInterrupt::SAR)
        } else if value == 1 {
            Ok(ExternalInterrupt::GPIO)
        } else {
            Err(Error::InvalidVariant(value))
        }
    }

    /// Converts the interrupt source to its number.
    pub fn number(self) -> (r: usize)
        ensures
            r == self.code(),
            self is SAR ==> r == 0,
            self is GPIO ==> r == 1,
    {
        match self {
            ExternalInterrupt::SAR => 0,
            ExternalInterrupt::GPIO => 1,
        }
    }

    /// Converts a number to the interrupt source it names; any number above
    /// `MAX_INTERRUPT_NUMBER` is an invalid variant.
    pub fn from_number(value: usize) -> (r: Result<ExternalInterrupt, Error>)
        ensures
            r == ExternalInterrupt::from_code(value),
            r is Ok <==> value <= MAX_INTERRUPT_NUMBER,
            r is Err ==> r == Err::<ExternalInterrupt, Error>(Error::InvalidVariant(value)),
            value == 0 ==> r == Ok::<ExternalInterrupt, Error>(ExternalInterrupt::SAR),
            value == 1 ==> r == Ok::<ExternalInterrupt, Error>(ExternalInterrupt::GPIO),
            value > 1 ==> r == Err::<ExternalInterrupt, Error>(Error::InvalidVariant(value)),
    {
        match value {
            0 => Ok(ExternalInterrupt::SAR),
            1 => Ok(ExternalInterrupt::GPIO),
            _ => Err(Error::InvalidVariant(value)),
        }
    }
}

/// Numbering of external interrupts is a bijection between the variants and
/// `0..=MAX_INTERRUPT_NUMBER`: every number is at most the maximum, converting
/// a variant to its number and back gives the variant, and a number that
/// converts to a variant is that variant's number.
pub proof fn lemma_external_interrupt_numbering(i: ExternalInterrupt, value: usize)
    ensures
        MAX_INTERRUPT_NUMBER == 1,
        ExternalInterrupt::SAR.code() == 0,
        ExternalInterrupt::GPIO.code() == 1,
        value > 1 ==> ExternalInterrupt::from_code(value) == Err::<ExternalInterrupt, Error>(
            Error::InvalidVariant(value),
        ),
        i.code() <= MAX_INTERRUPT_NUMBER,
        ExternalInterrupt::from_code(i.code()) == Ok::<ExternalInterrupt, Error>(i),
        ExternalInterrupt::from_code(value) matches Ok(j) ==> j.code() == value,
{
}

} // verus!
