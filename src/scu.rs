//! The snoop control unit and the multiprocessing bits of the auxiliary
//! control register.

use crate::bits::{lemma_bit_constants, set_flag};
use vstd::prelude::*;

verus! {

/// MIDR bits that identify implementer, architecture and primary part.
pub const MIDR_PART_MASK: u32 = 0xFF0F_FFF0;

/// Those bits on a Cortex-A9.
pub const MIDR_CORTEX_A9: u32 = 0x410F_C090;

/// ACTLR.SMP: take part in coherency.
pub const ACTLR_SMP: u32 = 6;

/// ACTLR.FW (Cortex-A9): broadcast cache and TLB maintenance.
pub const ACTLR_FW: u32 = 0;

pub open spec fn cortex_a9(midr: u32) -> bool {
    midr & MIDR_PART_MASK == MIDR_CORTEX_A9
}

/// Whether MIDR identifies a Cortex-A9, whatever its variant and revision.
pub fn is_cortex_a9(midr: u32) -> (r: bool)
    ensures
        r == cortex_a9(midr),
{
    midr & MIDR_PART_MASK == MIDR_CORTEX_A9
}

/// The ACTLR bits that make a core take part in coherency.
pub open spec fn smp_bits(midr: u32) -> u32 {
    if cortex_a9(midr) {
        0x41
    } else {
        0x40
    }
}

/// New values of the snoop control unit's registers.
#[derive(Clone, Copy, PartialEq, Eq, Structural, Debug)]
pub struct ScuWrites {
    /// The control register.
    pub control: u32,
    /// The diagnostic control register, where it must be written.
    pub diagnostic: Option<u32>,
}

/// The snoop control unit, which keeps the cores' data caches coherent.
pub struct SnoopControlUnit;

impl SnoopControlUnit {
    /// Enables the unit. On a Cortex-A9 the migratory bit feature is also
    /// disabled in the diagnostic control register (erratum 764369: line
    /// maintenance by address can fail on inner shareable memory).
    pub fn enable(control: u32, diagnostic: u32, midr: u32) -> (r: ScuWrites)
        ensures
            r.control == control | 1,
            r.diagnostic == if cortex_a9(midr) {
                Some(diagnostic | 1)
            } else {
                None
            },
    {
        proof {
            lemma_bit_constants();
        }
        let d = if is_cortex_a9(midr) {
            Some(set_flag(diagnostic, 0, true))
        } else {
            None
        };
        ScuWrites { control: set_flag(control, 0, true), diagnostic: d }
    }

    /// Disables the unit.
    pub fn disable(control: u32) -> (r: u32)
        ensures
            r == control & !1u32,
    {
        proof {
            lemma_bit_constants();
        }
        set_flag(control, 0, false)
    }

    /// ACTLR with the core taking part in coherency; on a Cortex-A9 also
    /// broadcasting its maintenance operations.
    pub fn enable_smp(actlr: u32, midr: u32) -> (r: u32)
        ensures
            r == actlr | smp_bits(midr),
    {
        let a = set_flag(actlr, ACTLR_SMP, true);
        let r = if is_cortex_a9(midr) {
            set_flag(a, ACTLR_FW, true)
        } else {
            a
        };
        assert((actlr | (1u32 << 6u32)) | (1u32 << 0u32) == actlr | 0x41 && actlr | (1u32 << 6u32)
            == actlr | 0x40) by (bit_vector);
        r
    }

    /// ACTLR with the core out of coherency.
    pub fn disable_smp(actlr: u32, midr: u32) -> (r: u32)
        ensures
            r == actlr & !smp_bits(midr),
    {
        let a = set_flag(actlr, ACTLR_SMP, false);
        let r = if is_cortex_a9(midr) {
            set_flag(a, ACTLR_FW, false)
        } else {
            a
        };
        assert((actlr & !(1u32 << 6u32)) & !(1u32 << 0u32) == actlr & !0x41u32 && actlr & !(1u32
            << 6u32) == actlr & !0x40u32) by (bit_vector);
        r
    }
}

} // verus!
