//! Critical sections: interrupt masking on the current core and, on
//! multi-core builds, a spinlock word shared by all cores.
//!
//! Acquisition masks IRQ and FIQ first, then takes the spinlock; release
//! restores the mask bits, then frees the word and signals waiting cores.

use crate::bits::{field_read, set_flag};
use vstd::prelude::*;

verus! {

/// CPSR.I: IRQs masked.
pub const CPSR_I: u32 = 7;

/// CPSR.F: FIQs masked.
pub const CPSR_F: u32 = 6;

/// Both interrupt mask bits.
pub const INTERRUPT_MASK: u32 = 0xC0;

/// The lock word's value while no core holds it.
pub const UNLOCKED: u32 = 0;

/// The lock word's value while a core holds it.
pub const LOCKED: u32 = 1;

/// The state kept across a critical section: the CPSR at acquisition.
#[derive(Clone, Copy, PartialEq, Eq, Structural, Debug)]
pub struct Acquisition {
    /// The CPSR before masking, to hand back at release.
    pub restore: u32,
    /// The CPSR with IRQ and FIQ masked, which the caller establishes.
    pub cpsr: u32,
}

/// The interrupt sources to unmask at release.
#[derive(Clone, Copy, PartialEq, Eq, Structural, Debug)]
pub struct ReleasePlan {
    pub enable_irq: bool,
    pub enable_fiq: bool,
}

/// What a core does after reading the lock word exclusively.
#[derive(Clone, Copy, PartialEq, Eq, Structural, Debug)]
pub enum SpinStep {
    /// Store this value exclusively; retry from the read if the store fails.
    Take(u32),
    /// Wait for an event, then read again.
    Wait,
}

/// The plan that releasing with `restore` follows: unmask exactly the
/// sources that were unmasked when the section was entered.
pub open spec fn release_plan(restore: u32) -> ReleasePlan {
    ReleasePlan { enable_irq: restore & 0x80 == 0, enable_fiq: restore & 0x40 == 0 }
}

/// The CPSR after a plan is carried out on `cpsr`.
pub open spec fn after_release(cpsr: u32, plan: ReleasePlan) -> u32 {
    let irq: u32 = if plan.enable_irq {
        0x80
    } else {
        0
    };
    let fiq: u32 = if plan.enable_fiq {
        0x40
    } else {
        0
    };
    cpsr & !(irq | fiq)
}

/// Interrupt masking for short critical sections.
pub struct CriticalSection;

impl CriticalSection {
    /// Enters a critical section from `cpsr`: both interrupt sources are
    /// masked, and the previous state is kept for release.
    pub fn acquire(cpsr: u32) -> (r: Acquisition)
        ensures
            r.restore == cpsr,
            r.cpsr == cpsr | INTERRUPT_MASK,
    {
        let masked = set_flag(set_flag(cpsr, CPSR_I, true), CPSR_F, true);
        assert((cpsr | (1u32 << 7u32)) | (1u32 << 6u32) == cpsr | 0xC0) by (bit_vector);
        Acquisition { restore: cpsr, cpsr: masked }
    }

    /// Leaves a critical section entered from `restore`: a source that was
    /// unmasked then is unmasked again, one that was masked stays masked.
    pub fn release(restore: u32) -> (r: ReleasePlan)
        ensures
            r == release_plan(restore),
    {
        let i = field_read(restore, 1, CPSR_I);
        let f = field_read(restore, 1, CPSR_F);
        assert((((restore & (1u32 << 7u32)) >> 7u32) == 0) == (restore & 0x80 == 0) && (((restore
            & (1u32 << 6u32)) >> 6u32) == 0) == (restore & 0x40 == 0)) by (bit_vector);
        ReleasePlan { enable_irq: i == 0, enable_fiq: f == 0 }
    }

    /// The step of the spin after reading `observed` from the lock word.
    pub fn lock_step(observed: u32) -> (r: SpinStep)
        ensures
            observed == UNLOCKED ==> r == SpinStep::Take(LOCKED),
            observed != UNLOCKED ==> r == SpinStep::Wait,
    {
        if observed == UNLOCKED {
            SpinStep::Take(LOCKED)
        } else {
            SpinStep::Wait
        }
    }
}

/// A critical section leaves the interrupt mask bits as it found them: a
/// masked source stays masked, an enabled one is enabled again, and every
/// other CPSR bit is what the section left there.
pub proof fn lemma_release_restores_mask(cpsr: u32, during: u32)
    requires
        during & INTERRUPT_MASK == INTERRUPT_MASK,
    ensures
        after_release(during, release_plan(cpsr)) & INTERRUPT_MASK == cpsr & INTERRUPT_MASK,
        after_release(during, release_plan(cpsr)) & !INTERRUPT_MASK == during & !INTERRUPT_MASK,
{
    let p = release_plan(cpsr);
    let irq: u32 = if p.enable_irq {
        0x80
    } else {
        0
    };
    let fiq: u32 = if p.enable_fiq {
        0x40
    } else {
        0
    };
    assert((during & !(irq | fiq)) & 0xC0 == cpsr & 0xC0 && (during & !(irq | fiq)) & !0xC0u32
        == during & !0xC0u32) by (bit_vector)
        requires
            during & 0xC0 == 0xC0,
            irq == (if cpsr & 0x80 == 0 {
                0x80u32
            } else {
                0u32
            }),
            fiq == (if cpsr & 0x40 == 0 {
                0x40u32
            } else {
                0u32
            }),
    ;
}

} // verus!
