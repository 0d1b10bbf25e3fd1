//! Fields of thirty-two-bit peripheral registers.
//!
//! A register is handled as the value read from it or to be written to it;
//! a field is a run of bits named by the offset of its lowest bit and its
//! width.

use vstd::prelude::*;

verus! {

/// A field of a register: `numbits` bits from bit `offset` up.
#[derive(Clone, Copy, Debug, PartialEq, Eq, Structural)]
pub struct Field {
    pub offset: u32,
    pub numbits: u32,
}

impl Field {
    /// The field lies inside a register.
    pub open spec fn wf(self) -> bool {
        1 <= self.numbits && self.offset + self.numbits <= 32
    }

    /// The field's width as ones in the low bits.
    pub open spec fn spec_mask(self) -> u32 {
        0xFFFF_FFFFu32 >> ((32 - self.numbits) as u32)
    }

    /// The value of the field in `reg`.
    pub open spec fn spec_read(self, reg: u32) -> u32 {
        (reg >> self.offset) & self.spec_mask()
    }

    /// `reg` with the field holding the low bits of `value`, and every other
    /// bit as it was.
    pub open spec fn spec_modify(self, reg: u32, value: u32) -> u32 {
        (reg & !(self.spec_mask() << self.offset)) | ((value & self.spec_mask()) << self.offset)
    }

    /// A register that is zero but for the field, which holds the low bits
    /// of `value`.
    pub open spec fn spec_val(self, value: u32) -> u32 {
        (value & self.spec_mask()) << self.offset
    }

    /// A field of `numbits` bits from bit `offset` up.
    pub fn new(offset: u32, numbits: u32) -> (field: Field)
        requires
            1 <= numbits,
            offset + numbits <= 32,
        ensures
            field == (Field { offset, numbits }),
            field.wf(),
    {
        Field { offset, numbits }
    }

    /// The field's width as ones in the low bits.
    pub fn mask(self) -> (m: u32)
        requires
            self.wf(),
        ensures
            m == self.spec_mask(),
    {
        0xFFFF_FFFFu32 >> (32 - self.numbits)
    }

    /// Reads the field from `reg`.
    pub fn read(self, reg: u32) -> (value: u32)
        requires
            self.wf(),
        ensures
            value == self.spec_read(reg),
    {
        (reg >> self.offset) & self.mask()
    }

    /// Whether some bit of the field is set in `reg`.
    pub fn is_set(self, reg: u32) -> (r: bool)
        requires
            self.wf(),
        ensures
            r == (self.spec_read(reg) != 0),
    {
        self.read(reg) != 0
    }

    /// A register that is zero but for the field, which holds the low bits
    /// of `value`.
    pub fn val(self, value: u32) -> (reg: u32)
        requires
            self.wf(),
        ensures
            reg == self.spec_val(value),
    {
        (value & self.mask()) << self.offset
    }

    /// Writes the low bits of `value` into the field of `reg`.
    pub fn modify(self, reg: u32, value: u32) -> (r: u32)
        requires
            self.wf(),
        ensures
            r == self.spec_modify(reg, value),
    {
        let m: u32 = self.mask();
        (reg & !(m << self.offset)) | ((value & m) << self.offset)
    }

    /// Sets every bit of the field in `reg`.
    pub fn set(self, reg: u32) -> (r: u32)
        requires
            self.wf(),
        ensures
            r == self.spec_modify(reg, self.spec_mask()),
    {
        let m: u32 = self.mask();
        self.modify(reg, m)
    }

    /// Clears every bit of the field in `reg`.
    pub fn clear(self, reg: u32) -> (r: u32)
        requires
            self.wf(),
        ensures
            r == self.spec_modify(reg, 0),
    {
        self.modify(reg, 0)
    }
}

/// What is written to a field is read back from it, cut to the field's
/// width.
pub proof fn lemma_read_after_modify(field: Field, reg: u32, value: u32)
    requires
        field.wf(),
    ensures
        field.spec_read(field.spec_modify(reg, value)) == value & field.spec_mask(),
{
    let m = field.spec_mask();
    let o = field.offset;
    let n = field.numbits;
    assert(((((reg & !(m << o)) | ((value & m) << o)) >> o) & m) == value & m) by (bit_vector)
        requires
            o + n <= 32,
            1 <= n,
            m == 0xFFFF_FFFFu32 >> ((32 - n) as u32),
    ;
}

/// Writing to one field leaves a field that does not overlap it as it was.
pub proof fn lemma_modify_keeps_other(field: Field, other: Field, reg: u32, value: u32)
    requires
        field.wf(),
        other.wf(),
        field.offset + field.numbits <= other.offset || other.offset + other.numbits
            <= field.offset,
    ensures
        other.spec_read(field.spec_modify(reg, value)) == other.spec_read(reg),
{
    let m = field.spec_mask();
    let o = field.offset;
    let n = field.numbits;
    let m2 = other.spec_mask();
    let o2 = other.offset;
    let n2 = other.numbits;
    assert(((((reg & !(m << o)) | ((value & m) << o)) >> o2) & m2) == ((reg >> o2) & m2))
        by (bit_vector)
        requires
            o + n <= 32,
            1 <= n,
            o2 + n2 <= 32,
            1 <= n2,
            o + n <= o2 || o2 + n2 <= o,
            m == 0xFFFF_FFFFu32 >> ((32 - n) as u32),
            m2 == 0xFFFF_FFFFu32 >> ((32 - n2) as u32),
    ;
}

/// Writing a field twice is writing it once: the second value stands.
pub proof fn lemma_modify_twice(field: Field, reg: u32, first: u32, second: u32)
    requires
        field.wf(),
    ensures
        field.spec_modify(field.spec_modify(reg, first), second) == field.spec_modify(reg, second),
{
    let m = field.spec_mask();
    let o = field.offset;
    assert(((((reg & !(m << o)) | ((first & m) << o)) & !(m << o)) | ((second & m) << o)) == ((reg
        & !(m << o)) | ((second & m) << o))) by (bit_vector);
}

} // verus!
