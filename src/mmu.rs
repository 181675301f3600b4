//! MMU control: the system control register bits that switch the MMU and
//! the caches, and the register values that prepare translation.

use crate::bits::{field, flag, lemma_bit_constants, lemma_low_masks, set_flag};
use vstd::prelude::*;

verus! {

/// SCTLR.M: MMU enable.
pub const SCTLR_M: u32 = 0;

/// SCTLR.C: data and unified cache enable.
pub const SCTLR_C: u32 = 2;

/// SCTLR.Z: branch prediction enable.
pub const SCTLR_Z: u32 = 11;

/// SCTLR.I: instruction cache enable.
pub const SCTLR_I: u32 = 12;

/// SCTLR.TRE: TEX remap enable.
pub const SCTLR_TRE: u32 = 28;

/// SCTLR.AFE: access flag enable (simplified access model).
pub const SCTLR_AFE: u32 = 29;

/// The MMU, switched by SCTLR.M. Each change must be followed by an
/// instruction synchronization barrier.
pub struct MMU;

/// Register values that prepare translation through one page directory.
#[derive(Clone, Copy, PartialEq, Eq, Structural, Debug)]
pub struct MmuSetup {
    /// TTBCR: TTBR0 alone translates every address, walks through TTBR0
    /// and TTBR1 both enabled, short descriptors.
    pub ttbcr: u32,
    /// TTBR0: the directory's base, walks inner and outer write-back
    /// write-allocate, non-shareable.
    pub ttbr0: u32,
    /// DACR: domain 0 is a client domain (descriptor permissions apply);
    /// every other domain has no access.
    pub dacr: u32,
    /// SCTLR with TEX remap off and the simplified access model on.
    pub sctlr: u32,
}

/// TTBR0 for a directory at `table_addr`. With the multiprocessing
/// extensions the inner walk attributes are IRGN[1] (bit 0) and IRGN[0]
/// (bit 6); without them bit 0 is C.
pub open spec fn ttbr0_value(table_addr: u32, multiprocessor: bool) -> u32 {
    if multiprocessor {
        table_addr | 0x48
    } else {
        table_addr | 0x09
    }
}

impl MMU {
    /// SCTLR with the MMU switched on.
    pub fn enable(sctlr: u32) -> (r: u32)
        ensures
            r == sctlr | 0x1,
    {
        let r = set_flag(sctlr, SCTLR_M, true);
        proof {
            lemma_bit_constants();
        }
        r
    }

    /// SCTLR with the MMU switched off.
    pub fn disable(sctlr: u32) -> (r: u32)
        ensures
            r == sctlr & !0x1u32,
    {
        let r = set_flag(sctlr, SCTLR_M, false);
        proof {
            lemma_bit_constants();
        }
        r
    }

    /// The register values that make the 16 KiB-aligned page directory at
    /// `table_addr` the translation table, given the current SCTLR. Valid
    /// while the MMU is off; the caller writes TTBCR, TTBR0, DACR and SCTLR
    /// in that order, then issues an instruction synchronization barrier.
    pub fn setup(table_addr: u32, sctlr: u32, multiprocessor: bool) -> (r: MmuSetup)
        requires
            table_addr % 0x4000 == 0,
        ensures
            r.ttbcr == 0,
            r.ttbr0 == ttbr0_value(table_addr, multiprocessor),
            r.dacr == 1,
            r.sctlr == (sctlr & !0x1000_0000u32) | 0x2000_0000,
    {
        proof {
            lemma_low_masks();
            lemma_bit_constants();
        }
        assert(table_addr >> 14 <= 0x3FFFF && (table_addr >> 14) << 14 == table_addr) by (
        bit_vector)
            requires
                table_addr % 0x4000 == 0,
        ;
        let ttbcr = field(3, 0, 0).and(flag(4, false)).and(flag(5, false));
        let base = field(18, 14, table_addr >> 14);
        let s = flag(1, false);
        let rgn = field(2, 3, 1);
        let nos = flag(5, false);
        let inner = if multiprocessor {
            flag(0, false).and(flag(6, true))
        } else {
            flag(0, true)
        };
        let ttbr0 = inner.and(s).and(rgn).and(nos).and(base);
        let dacr = field(2, 0, 1);
        let sctlr1 = set_flag(sctlr, SCTLR_TRE, false);
        let sctlr2 = set_flag(sctlr1, SCTLR_AFE, true);
        let (tv, iv, rv, dv) = (ttbcr.value, inner.value, rgn.value, dacr.value);
        assert(tv == 0 && rv == 8 && dv == 1) by (bit_vector)
            requires
                tv == ((0u32 << 0u32) | 0u32) | 0u32,
                rv == 1u32 << 3u32,
                dv == 1u32 << 0u32,
        ;
        let tv2 = ttbr0.value;
        assert(tv2 == ttbr0_value(table_addr, multiprocessor)) by {
            let mp = multiprocessor;
            assert((((iv | 0u32) | 8u32) | 0u32) | table_addr == if mp {
                table_addr | 0x48
            } else {
                table_addr | 0x09
            }) by (bit_vector)
                requires
                    mp ==> iv == 0u32 | 0x40u32,
                    !mp ==> iv == 1u32,
            ;
        }
        MmuSetup { ttbcr: ttbcr.value, ttbr0: ttbr0.value, dacr: dacr.value, sctlr: sctlr2 }
    }
}

} // verus!
