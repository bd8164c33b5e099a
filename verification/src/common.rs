//! Definitions shared by the peripheral drivers: the faults an operation can
//! report, the record of a register write, and the bit-field arithmetic that
//! every read-modify-write goes through.

use vstd::prelude::*;

verus! {

/// Largest value a pin or channel mask may take: one bit per selector.
pub const U8_MAX: u32 = 0xFF;

/// The ways a driver operation can fail.
#[derive(Clone, Copy, Debug, PartialEq, Eq, Structural)]
pub enum Fault {
    /// A handle was requested for a peripheral that already has one.
    DuplicateConstruction,
    /// A mask names a selector beyond the eight the peripheral has.
    MaskOutOfRange,
}

/// One write to a register, as issued by a driver operation.
#[derive(Clone, Copy, Debug, PartialEq, Eq, Structural)]
pub struct RegisterWrite {
    /// Physical address of the register.
    pub address: u32,
    /// Value stored in it.
    pub value: u32,
}

/// Accepts the masks that name only selectors the peripherals have.
pub fn check_mask(mask: u32) -> (result: Result<(), Fault>)
    ensures
        mask <= U8_MAX ==> result == Ok::<(), Fault>(()),
        mask > U8_MAX ==> result == Err::<(), Fault>(Fault::MaskOutOfRange),
{
    if mask > U8_MAX {
        Err(Fault::MaskOutOfRange)
    } else {
        Ok(())
    }
}

/// `current` with the bits selected by `mask` replaced by those of `value`.
pub open spec fn spec_with_field(current: u32, mask: u32, value: u32) -> u32 {
    (current & !mask) | (mask & value)
}

/// Replaces the bits of `current` that `mask` selects by the corresponding
/// bits of `value`.
#[verifier::when_used_as_spec(spec_with_field)]
pub fn with_field(current: u32, mask: u32, value: u32) -> (updated: u32)
    ensures
        updated == spec_with_field(current, mask, value),
{
    (current & !mask) | (mask & value)
}

/// A field update stores `value` inside the mask and keeps `current` outside
/// of it.
pub proof fn lemma_with_field(current: u32, mask: u32, value: u32)
    by (bit_vector)
    ensures
        spec_with_field(current, mask, value) & mask == value & mask,
        spec_with_field(current, mask, value) & !mask == current & !mask,
{
}

/// Setting the bits of a mask sets them all and keeps every other bit.
pub proof fn lemma_set_bits(current: u32, mask: u32)
    by (bit_vector)
    ensures
        (current | mask) & mask == mask,
        (current | mask) & !mask == current & !mask,
{
}

/// Clearing the bits of a mask clears them all and keeps every other bit.
pub proof fn lemma_clear_bits(current: u32, mask: u32)
    by (bit_vector)
    ensures
        (current & !mask) & mask == 0,
        (current & !mask) & !mask == current & !mask,
{
}

/// Two values that agree outside a mask agree on every field that does not
/// meet the mask.
pub proof fn lemma_field_untouched(before: u32, after: u32, mask: u32, field: u32)
    by (bit_vector)
    requires
        after & !mask == before & !mask,
        field & mask == 0,
    ensures
        after & field == before & field,
{
}

/// The bit of a selector lies within the width of a mask.
pub proof fn lemma_selector_bit(index: u32)
    by (bit_vector)
    requires
        index < 8,
    ensures
        1u32 << index != 0,
        1u32 << index <= U8_MAX,
{
}

/// Masking a value with one bit leaves that bit or nothing.
pub proof fn lemma_single_bit(value: u32, index: u32)
    by (bit_vector)
    requires
        index < 8,
    ensures
        value & (1u32 << index) == 0 || value & (1u32 << index) == 1u32 << index,
{
}

/// Different selectors have different bits.
pub proof fn lemma_selector_bits_disjoint(index: u32, other: u32)
    by (bit_vector)
    requires
        index < 8,
        other < 8,
        index != other,
    ensures
        (1u32 << index) & (1u32 << other) == 0,
{
}

/// Restricting a mask in range to the width of a mask changes nothing.
pub proof fn lemma_mask_in_range(mask: u32)
    by (bit_vector)
    requires
        mask <= U8_MAX,
    ensures
        U8_MAX & mask == mask,
        !U8_MAX | !mask == !mask,
{
}

} // verus!
