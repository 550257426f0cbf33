//! Shifts and masks in terms of arithmetic.

use vstd::prelude::*;

verus! {

/// A pointer into a ring of eight slots goes round by a mask.
pub proof fn lemma_ring(sp: u8)
    by (bit_vector)
    requires
        sp < 8,
    ensures
        ((sp + 1) as u8) & 7 == ((sp + 1) as u8) % 8,
        ((sp + 7) as u8) & 7 == ((sp + 7) as u8) % 8,
{
}

/// What the shifts of a byte by one place are in arithmetic, and the bit that
/// each pushes out.
pub proof fn lemma_shifts(value: u8)
    by (bit_vector)
    ensures
        value >> 1 == value / 2 && value & 1 == value % 2 && value << 1 == (value * 2) % 256
            && value >> 7 == value / 128,
{
}

} // verus!
