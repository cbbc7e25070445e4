use vstd::prelude::*;

verus! {

/// A value for one or more bit fields of a 32-bit register, together with the
/// mask of the bits it covers.
///
/// Writing one to a register replaces the covered bits and keeps the others;
/// two of them combine by taking the union of both masks and both values.
#[derive(Copy, Clone, Debug, PartialEq, Eq, Structural)]
pub struct FieldValue {
    pub mask: u32,
    pub value: u32,
}

/// The field value that sets the `mask`-wide field at `shift` to `value`,
/// truncating `value` to the field's width.
pub open spec fn spec_field(mask: u32, shift: u32, value: u32) -> FieldValue {
    FieldValue { mask: mask << shift, value: (value & mask) << shift }
}

impl FieldValue {
    /// Only covered bits are set in the value.
    pub open spec fn wf(self) -> bool {
        self.value & !self.mask == 0
    }

    /// The field value that sets the `mask`-wide field at `shift` to `value`.
    pub fn new(mask: u32, shift: u32, value: u32) -> (f: FieldValue)
        requires
            shift < 32,
        ensures
            f == spec_field(mask, shift, value),
            f.wf(),
    {
        let f = FieldValue { mask: mask << shift, value: (value & mask) << shift };
        assert(((value & mask) << shift) & !(mask << shift) == 0) by (bit_vector)
            requires
                shift < 32,
        ;
        f
    }

    /// Both field values at once.
    pub fn combine(self, other: FieldValue) -> (f: FieldValue)
        ensures
            f.mask == self.mask | other.mask,
            f.value == self.value | other.value,
            self.wf() && other.wf() ==> f.wf(),
    {
        let f = FieldValue { mask: self.mask | other.mask, value: self.value | other.value };
        let (m1, v1, m2, v2) = (self.mask, self.value, other.mask, other.value);
        assert(v1 & !m1 == 0 && v2 & !m2 == 0 ==> (v1 | v2) & !(m1 | m2) == 0) by (bit_vector);
        f
    }

    /// The register word this field value writes, with every other bit zero.
    pub fn word(self) -> (w: u32)
        ensures
            w == self.value,
    {
        self.value
    }

    /// The register's new contents after a read-modify-write with this
    /// field value.
    pub fn apply(self, register: u32) -> (r: u32)
        ensures
            r == spec_apply(self, register),
    {
        (register & !self.mask) | self.value
    }
}

/// A read-modify-write: the covered bits take the new value, the rest keep
/// theirs.
pub open spec fn spec_apply(f: FieldValue, register: u32) -> u32 {
    (register & !f.mask) | f.value
}

/// The `mask`-wide field at `shift` of a register's contents.
pub open spec fn spec_read_field(register: u32, mask: u32, shift: u32) -> u32 {
    (register >> shift) & mask
}

/// Read the `mask`-wide field at `shift` of a register's contents.
pub fn read_field(register: u32, mask: u32, shift: u32) -> (r: u32)
    requires
        shift < 32,
    ensures
        r == spec_read_field(register, mask, shift),
{
    (register >> shift) & mask
}

/// Whether bit `bit` of a register's contents is set.
pub open spec fn spec_bit_set(register: u32, bit: u32) -> bool {
    (register >> bit) & 1 == 1
}

/// Whether bit `bit` of a register's contents is set.
pub fn is_set(register: u32, bit: u32) -> (b: bool)
    requires
        bit < 32,
    ensures
        b == spec_bit_set(register, bit),
{
    (register >> bit) & 1 == 1
}

/// Writing a field and reading it back gives the value written, truncated to
/// the field's width, whatever the register held before.
pub proof fn lemma_write_then_read(register: u32, mask: u32, shift: u32, value: u32)
    requires
        shift < 32,
        mask <= (u32::MAX >> shift),
    ensures
        spec_read_field(spec_apply(spec_field(mask, shift, value), register), mask, shift)
            == value & mask,
{
    assert((((register & !(mask << shift)) | ((value & mask) << shift)) >> shift) & mask
        == value & mask) by (bit_vector)
        requires
            shift < 32,
            mask <= (u32::MAX >> shift),
    ;
}

/// A read-modify-write leaves every bit outside its mask as it was.
pub proof fn lemma_apply_keeps_other_bits(f: FieldValue, register: u32, bit: u32)
    requires
        f.wf(),
        bit < 32,
        (f.mask >> bit) & 1 == 0,
    ensures
        spec_bit_set(spec_apply(f, register), bit) == spec_bit_set(register, bit),
{
    let (m, v) = (f.mask, f.value);
    assert((((register & !m) | v) >> bit) & 1 == (register >> bit) & 1) by (bit_vector)
        requires
            v & !m == 0,
            bit < 32,
            (m >> bit) & 1 == 0,
    ;
}

} // verus!
