use vstd::prelude::*;

verus! {

/// Bounds of the masks the hardware models apply to addresses and register values.
pub proof fn lemma_masks()
    by (bit_vector)
    ensures
        forall|x: u16| #[trigger] (x & 0x07FF) < 0x800,
        forall|x: u16| #[trigger] (x & 0x07FF) == x % 0x800,
        forall|x: u16| #[trigger] (x & 0x2FFF) <= 0x2FFF,
        forall|x: u16| 0x2000 <= x < 0x4000 ==> #[trigger] (x & 0x2FFF) >= 0x2000,
        forall|x: u8| #[trigger] (x & 0x3F) < 0x40,
        forall|x: u8| #[trigger] (x & 0x7) < 8,
        forall|x: u8| #[trigger] (x & 0x3) < 4,
        (0x2004u16 & 0x2007u16) == 0x2004u16,
        (0x2006u16 & 0x2007u16) == 0x2006u16,
        (0x2007u16 & 0x2007u16) == 0x2007u16,
{
}

} // verus!
