//! Bit-field arithmetic over 32-bit register values.
//!
//! Every memory-mapped register in this crate is modelled as a `u32`; the
//! spec functions here give each single-bit and multi-bit field access a
//! mathematical meaning, and the lemmas relate a field update to the bits it
//! leaves untouched.

use vstd::prelude::*;

verus! {

/// Whether bit `index` of `value` is set.
pub open spec fn bit_read(value: u32, index: u32) -> bool {
    value & (1u32 << index) != 0
}

/// `value` with bit `index` forced to `bit`, all other bits unchanged.
pub open spec fn bit_write(value: u32, index: u32, bit: bool) -> u32 {
    if bit {
        value | (1u32 << index)
    } else {
        value & !(1u32 << index)
    }
}

/// Mask selecting the low `width` bits of a 32-bit word.
pub open spec fn low_mask(width: u32) -> u32 {
    !(u32::MAX << width)
}

/// The low `width` bits of `value`, as a field read at offset zero.
pub open spec fn field_read(value: u32, width: u32) -> u32 {
    value & low_mask(width)
}

/// `value` with its low `width` bits replaced by the low `width` bits of
/// `field`, all higher bits unchanged.
pub open spec fn field_write(value: u32, width: u32, field: u32) -> u32 {
    (value & (u32::MAX << width)) | (field & low_mask(width))
}

/// Writing one bit changes that bit and no other.
pub proof fn lemma_bit_write_effect(value: u32, index: u32, bit: bool)
    by (bit_vector)
    requires
        index < 32,
    ensures
        bit_read(bit_write(value, index, bit), index) == bit,
        forall|i: u32|
            i < 32 && i != index ==> #[trigger] bit_read(bit_write(value, index, bit), i)
                == bit_read(value, i),
{
}

/// Writing a low field changes only bits below `width`.
pub proof fn lemma_field_write_effect(value: u32, width: u32, field: u32)
    by (bit_vector)
    requires
        width < 32,
    ensures
        field_read(field_write(value, width, field), width) == field_read(field, width),
        forall|i: u32|
            width <= i < 32 ==> #[trigger] bit_read(field_write(value, width, field), i)
                == bit_read(value, i),
{
}

} // verus!
