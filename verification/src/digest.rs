use vstd::prelude::*;

verus! {

/// The order of the Goldilocks field, `2^64 - 2^32 + 1`.
pub const GOLDILOCKS_ORDER: u64 = 0xFFFF_FFFF_0000_0001;

/// A hash output: four Goldilocks field elements, each held by the 64-bit
/// word that represents it.
#[derive(Clone, Copy, Debug)]
pub struct HashDigest {
    pub elements: [u64; 4],
}

impl HashDigest {
    /// Whether every word is the canonical representative of its element,
    /// that is, below the field order.
    pub open spec fn spec_is_canonical(&self) -> bool {
        forall|i: int| 0 <= i < 4 ==> #[trigger] self.elements@[i] < GOLDILOCKS_ORDER
    }

    /// The digest whose four elements are all zero.
    pub fn zero() -> (d: HashDigest)
        ensures
            forall|i: int| 0 <= i < 4 ==> #[trigger] d.elements@[i] == 0,
            d.spec_is_canonical(),
    {
        HashDigest { elements: [0u64, 0u64, 0u64, 0u64] }
    }
}

} // verus!
