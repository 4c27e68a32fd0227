//! Feature identifiers and the fixed-capacity slot sets that hold them.

use vstd::prelude::*;

verus! {

/// Width of a feature identifier in bytes.
pub const FEATURE_ID_BYTES: usize = 32;

/// Number of slots in one generation of staged features.
pub const SLOT_COUNT: usize = 8;

/// An opaque 32-byte feature identifier. The all-zero value marks an empty
/// slot and never names a real feature.
#[derive(Clone, Copy, Debug, PartialEq, Eq)]
pub struct FeatureId {
    pub bytes: [u8; 32],
}

impl FeatureId {
    /// Whether this is the empty-slot sentinel: every byte is zero.
    pub open spec fn spec_is_empty(self) -> bool {
        forall|i: int| 0 <= i < 32 ==> #[trigger] self.bytes@[i] == 0u8
    }

    /// The empty-slot sentinel.
    pub fn empty() -> (r: FeatureId)
        ensures
            r.spec_is_empty(),
    {
        FeatureId { bytes: [0u8; 32] }
    }

    /// Tells the empty-slot sentinel from a real identifier.
    pub fn is_empty(&self) -> (r: bool)
        ensures
            r == self.spec_is_empty(),
    {
        let mut i: usize = 0;
        while i < FEATURE_ID_BYTES
            invariant
                i <= FEATURE_ID_BYTES,
                forall|j: int| 0 <= j < i ==> #[trigger] self.bytes@[j] == 0u8,
            decreases FEATURE_ID_BYTES - i,
        {
            if self.bytes[i] != 0 {
                return false;
            }
            i = i + 1;
        }
        true
    }
}

/// Every slot of `s` holds the empty sentinel.
pub open spec fn all_empty(s: Seq<FeatureId>) -> bool {
    forall|i: int| 0 <= i < s.len() ==> #[trigger] s[i].spec_is_empty()
}

/// At least one slot of `s` holds the empty sentinel.
pub open spec fn has_empty_slot(s: Seq<FeatureId>) -> bool {
    exists|i: int| 0 <= i < s.len() && #[trigger] s[i].spec_is_empty()
}

/// Slot `i` is the first empty slot of `s` in slot order.
pub open spec fn is_first_empty(s: Seq<FeatureId>, i: int) -> bool {
    &&& 0 <= i < s.len()
    &&& s[i].spec_is_empty()
    &&& forall|j: int| 0 <= j < i ==> !(#[trigger] s[j].spec_is_empty())
}

/// How many slots of `s` hold the empty sentinel.
pub open spec fn empty_count(s: Seq<FeatureId>) -> nat
    decreases s.len(),
{
    if s.len() == 0 {
        0
    } else {
        empty_count(s.drop_last()) + if s.last().spec_is_empty() {
            1nat
        } else {
            0nat
        }
    }
}

/// A set never has more empty slots than slots.
pub proof fn lemma_empty_count_bound(s: Seq<FeatureId>)
    ensures
        empty_count(s) <= s.len(),
    decreases s.len(),
{
    if s.len() > 0 {
        lemma_empty_count_bound(s.drop_last());
    }
}

/// A set with an empty slot has a positive count of empty slots.
pub proof fn lemma_empty_count_positive(s: Seq<FeatureId>, i: int)
    requires
        0 <= i < s.len(),
        s[i].spec_is_empty(),
    ensures
        empty_count(s) > 0,
    decreases s.len(),
{
    if i < s.len() - 1 {
        assert(s.drop_last()[i] == s[i]);
        lemma_empty_count_positive(s.drop_last(), i);
    }
}

/// Writing a real identifier over an empty slot uses up exactly one empty slot.
pub proof fn lemma_fill_empty_slot(s: Seq<FeatureId>, i: int, id: FeatureId)
    requires
        0 <= i < s.len(),
        s[i].spec_is_empty(),
        !id.spec_is_empty(),
    ensures
        empty_count(s.update(i, id)) + 1 == empty_count(s),
    decreases s.len(),
{
    let t = s.update(i, id);
    if i == s.len() - 1 {
        assert(t.drop_last() =~= s.drop_last());
    } else {
        assert(t.drop_last() =~= s.drop_last().update(i, id));
        assert(s.drop_last()[i] == s[i]);
        lemma_fill_empty_slot(s.drop_last(), i, id);
    }
}

} // verus!
