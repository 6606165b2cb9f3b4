//! Machine-mode critical sections of the LP and ULP cores, built on the
//! external-interrupt switch of the interrupt mask register.

use crate::interrupt::ulp_core::{
    external_enabled, lemma_external_enabled_is_bit_31, mie_impl, mie_mask, IrqMask,
};
use vstd::prelude::*;

verus! {

/// Machine-mode critical section implementation for LP and ULP cores.
pub struct UlpCriticalSection;

impl UlpCriticalSection {
    /// Enters a critical section: masks the external interrupt and returns
    /// whether it was enabled, the state that `release` restores.
    pub fn acquire(mask: &mut IrqMask) -> (restore_state: bool)
        ensures
            final(mask).bits == mie_mask(false),
            restore_state == external_enabled(old(mask).bits),
            final(mask).bits == 0x8000_0000,
            restore_state == ((old(mask).bits & 0x8000_0000) == 0),
    {
        mie_impl(mask, false)
    }

    /// Leaves a critical section: the external interrupt is enabled again
    /// exactly when it was enabled on entry.
    pub fn release(mask: &mut IrqMask, previous_state: bool)
        ensures
            final(mask).bits == mie_mask(previous_state),
            final(mask).bits == (if previous_state {
                0u32
            } else {
                0x8000_0000u32
            }),
    {
        mie_impl(mask, previous_state);
    }
}

/// Inside a critical section the external interrupt is masked; leaving it
/// restores the external interrupt's state from before entering, also when
/// a second critical section is entered and left inside the first.
pub proof fn lemma_critical_section_restores(bits: u32)
    ensures
        !external_enabled(mie_mask(false)),
        external_enabled(mie_mask(external_enabled(bits))) == external_enabled(bits),
        ({
            let outer = external_enabled(bits);
            let inner = external_enabled(mie_mask(false));
            &&& !external_enabled(mie_mask(inner))
            &&& external_enabled(mie_mask(outer)) == outer
        }),
{
    assert((0x8000_0000u32 & 0x8000_0000u32) != 0) by (bit_vector);
    assert((0u32 & 0x8000_0000u32) == 0) by (bit_vector);
}

/// Acquire then release, on any mask register: the state handed back is
/// whether bit 31 was clear; inside the section the register holds only
/// bit 31; after release, bit 31 is set exactly when it was set before the
/// section, and the register holds 0 or only bit 31.
pub proof fn lemma_acquire_release_bit_31(bits: u32)
    ensures
        ({
            let restore = external_enabled(bits);
            let inside = mie_mask(false);
            let after = mie_mask(restore);
            &&& restore == ((bits & 0x8000_0000) == 0)
            &&& inside == 0x8000_0000
            &&& ((after & 0x8000_0000) == 0) == ((bits & 0x8000_0000) == 0)
            &&& (after == 0 || after == 0x8000_0000)
        }),
{
    lemma_external_enabled_is_bit_31(bits);
    assert((0u32 & 0x8000_0000u32) == 0) by (bit_vector);
    assert((0x8000_0000u32 & 0x8000_0000u32) != 0) by (bit_vector);
}

} // verus!
