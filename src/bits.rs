//! Bit-field arithmetic on 32-bit register words.

use tock_registers::fields::{Field, FieldValue};
use vstd::prelude::*;

verus! {

/// A setting of some fields of a register word: the bits it covers, already
/// shifted into place, and the value of those bits.
#[derive(Clone, Copy, PartialEq, Eq, Debug)]
pub struct FieldSetting {
    pub mask: u32,
    pub value: u32,
}

impl FieldSetting {
    /// The value holds no bit outside the mask.
    pub open spec fn wf(self) -> bool {
        self.value & !self.mask == 0
    }

    /// The word after this setting is applied to `word`.
    pub open spec fn applied_to(self, word: u32) -> u32 {
        (word & !self.mask) | self.value
    }

    /// Both settings at once; the fields of the two must not overlap.
    pub fn and(self, other: FieldSetting) -> (r: FieldSetting)
        requires
            self.wf(),
            other.wf(),
        ensures
            r.mask == self.mask | other.mask,
            r.value == self.value | other.value,
            r.wf(),
    {
        let r = FieldSetting { mask: self.mask | other.mask, value: self.value | other.value };
        let (m1, v1, m2, v2) = (self.mask, self.value, other.mask, other.value);
        assert((v1 | v2) & !(m1 | m2) == 0) by (bit_vector)
            requires
                v1 & !m1 == 0,
                v2 & !m2 == 0,
        ;
        r
    }

    /// Applies the setting to a register word: the covered bits take the
    /// setting's value, every other bit is kept.
    pub fn apply(self, word: u32) -> (r: u32)
        requires
            self.wf(),
        ensures
            r == self.applied_to(word),
    {
        field_modify(self, word)
    }
}

/// The field of `width_mask` (unshifted) at `shift`, read out of `word`.
pub open spec fn field_of(word: u32, width_mask: u32, shift: u32) -> u32 {
    (word & (width_mask << shift)) >> shift
}

/// Relies on tock_registers' `Field::new` and `Field::read`: the bits of the
/// field, shifted down to bit 0.
#[verifier::external_body]
pub(crate) fn field_read(word: u32, width_mask: u32, shift: u32) -> (r: u32)
    requires
        shift < 32,
    ensures
        r == field_of(word, width_mask, shift),
{
    Field::<u32, ()>::new(width_mask, shift as usize).read(word)
}

/// Relies on tock_registers' `FieldValue::new`: the mask shifted into
/// place, and the value cut to the mask and shifted the same way.
#[verifier::external_body]
pub(crate) fn field_value(width_mask: u32, shift: u32, value: u32) -> (r: FieldSetting)
    requires
        shift < 32,
    ensures
        r.mask == width_mask << shift,
        r.value == (value & width_mask) << shift,
{
    let fv = FieldValue::<u32, ()>::new(width_mask, shift as usize, value);
    FieldSetting { mask: fv.mask(), value: fv.value }
}

/// Relies on tock_registers' `FieldValue::new`, which at shift 0 keeps a
/// value that lies inside its mask as it is, and `FieldValue::modify`: the
/// bits under the mask are replaced by the setting's value, the others kept.
#[verifier::external_body]
fn field_modify(setting: FieldSetting, word: u32) -> (r: u32)
    requires
        setting.wf(),
    ensures
        r == (word & !setting.mask) | setting.value,
{
    FieldValue::<u32, ()>::new(setting.mask, 0, setting.value).modify(word)
}

/// A one-bit field at `shift` set to `on`.
pub fn flag(shift: u32, on: bool) -> (r: FieldSetting)
    requires
        shift < 32,
    ensures
        r.mask == 1u32 << shift,
        r.value == if on { 1u32 << shift } else { 0u32 },
        r.wf(),
{
    let v: u32 = if on { 1 } else { 0 };
    let r = field_value(1, shift, v);
    assert(r.mask == 1u32 << shift);
    assert((v & 1u32) << shift == if v == 1 { 1u32 << shift } else { 0u32 }) by (bit_vector)
        requires
            v == 0u32 || v == 1u32,
            shift < 32u32,
    ;
    let (m, val) = (r.mask, r.value);
    assert(val & !m == 0) by (bit_vector)
        requires
            m == 1u32 << shift,
            val == 1u32 << shift || val == 0u32,
            shift < 32u32,
    ;
    r
}

/// A field of `width` bits at `shift` holding `value`.
pub fn field(width: u32, shift: u32, value: u32) -> (r: FieldSetting)
    requires
        1 <= width <= 32,
        shift + width <= 32,
        value <= low_mask(width),
    ensures
        r.mask == low_mask(width) << shift,
        r.value == value << shift,
        r.wf(),
{
    let wm = make_low_mask(width);
    let r = field_value(wm, shift, value);
    assert(value & wm == value) by (bit_vector)
        requires
            wm == (if width >= 32 { 0xFFFF_FFFFu32 } else { ((1u32 << width) - 1) as u32 }),
            value <= wm,
            1 <= width <= 32,
    ;
    let (m, val) = (r.mask, r.value);
    assert(val & !m == 0) by (bit_vector)
        requires
            m == wm << shift,
            val == (value & wm) << shift,
    ;
    r
}

/// The single-bit values of the register bits in use.
pub proof fn lemma_bit_constants()
    ensures
        1u32 << 0u32 == 1,
        1u32 << 1u32 == 2,
        1u32 << 2u32 == 4,
        1u32 << 6u32 == 0x40,
        1u32 << 7u32 == 0x80,
        1u32 << 11u32 == 0x800,
        1u32 << 12u32 == 0x1000,
        1u32 << 28u32 == 0x1000_0000,
        1u32 << 29u32 == 0x2000_0000,
        2u32 << 0u32 == 2,
        0u32 & 3u32 == 0,
{
    assert(1u32 << 0u32 == 1 && 1u32 << 1u32 == 2 && 1u32 << 2u32 == 4 && 1u32 << 6u32 == 0x40
        && 1u32 << 7u32 == 0x80 && 1u32 << 11u32 == 0x800 && 1u32 << 12u32 == 0x1000 && 1u32
        << 28u32 == 0x1000_0000 && 1u32 << 29u32 == 0x2000_0000 && 2u32 << 0u32 == 2 && 0u32
        & 3u32 == 0) by (bit_vector);
}

/// A field at bit 0 is the word masked.
pub proof fn lemma_field_at_zero(word: u32, width_mask: u32)
    ensures
        field_of(word, width_mask, 0) == word & width_mask,
{
    assert((word & (width_mask << 0u32)) >> 0u32 == word & width_mask) by (bit_vector);
}

/// A mask of the low `width` bits.
pub open spec fn low_mask(width: u32) -> u32 {
    if width >= 32 {
        0xFFFF_FFFFu32
    } else {
        ((1u32 << width) - 1) as u32
    }
}

/// The masks of the field widths that registers and descriptors use.
pub proof fn lemma_low_masks()
    ensures
        low_mask(1) == 1,
        low_mask(2) == 3,
        low_mask(3) == 7,
        low_mask(12) == 0xFFF,
        low_mask(18) == 0x3FFFF,
        low_mask(20) == 0xFFFFF,
        low_mask(22) == 0x3FFFFF,
{
    assert(((1u32 << 1u32) - 1) as u32 == 1 && ((1u32 << 2u32) - 1) as u32 == 3 && ((1u32 << 3u32)
        - 1) as u32 == 7 && ((1u32 << 12u32) - 1) as u32 == 0xFFF && ((1u32 << 18u32) - 1) as u32
        == 0x3FFFF && ((1u32 << 20u32) - 1) as u32 == 0xFFFFF && ((1u32 << 22u32) - 1) as u32
        == 0x3FFFFF) by (bit_vector);
}

fn make_low_mask(width: u32) -> (r: u32)
    requires
        1 <= width <= 32,
    ensures
        r == low_mask(width),
{
    if width >= 32 {
        0xFFFF_FFFF
    } else {
        assert(1u32 << width >= 1) by (bit_vector)
            requires
                width < 32u32,
        ;
        (1u32 << width) - 1
    }
}

} // verus!

verus! {

/// `word` with bit `shift` set (`on`) or cleared, every other bit kept.
pub fn set_flag(word: u32, shift: u32, on: bool) -> (r: u32)
    requires
        shift < 32,
    ensures
        r == if on {
            word | (1u32 << shift)
        } else {
            word & !(1u32 << shift)
        },
{
    let f = flag(shift, on);
    let r = f.apply(word);
    let m = f.mask;
    assert((word & !m) | m == word | m && (word & !m) | 0 == word & !m) by (bit_vector);
    r
}

} // verus!
