//! Laws that relate successive operations on one store.

use vstd::prelude::*;

use crate::feature_set::{
    empty_count, is_first_empty, lemma_empty_count_bound, lemma_empty_count_positive,
    lemma_fill_empty_slot, FeatureId,
};
use crate::store::{stage_outcome, staged_into, update_post, StagedFeatures, StagingError};

verus! {

/// Rolling forward is idempotent: a second `maybe_update` with the same
/// epoch leaves the store exactly as the first one left it.
pub proof fn lemma_update_idempotent(
    s0: StagedFeatures,
    s1: StagedFeatures,
    s2: StagedFeatures,
    wall_epoch: u64,
)
    requires
        wall_epoch < u64::MAX,
        update_post(s0, wall_epoch, s1),
        update_post(s1, wall_epoch, s2),
    ensures
        s2 == s1,
{
}

/// Along a run of successful stagings for one epoch, each staging uses up
/// one empty slot and the next epoch stays put.
proof fn lemma_staging_run(
    states: Seq<StagedFeatures>,
    ids: Seq<FeatureId>,
    target_epoch: u64,
    k: int,
)
    requires
        states.len() == ids.len() + 1,
        0 <= k <= ids.len(),
        forall|j: int| 0 <= j < ids.len() ==> !(#[trigger] ids[j]).spec_is_empty(),
        forall|j: int|
            0 <= j < ids.len() ==> stage_outcome(#[trigger] states[j], target_epoch) == Ok::<
                (),
                StagingError,
            >(()) && staged_into(states[j], ids[j], states[j + 1]),
    ensures
        empty_count(states[k].next_features@) + k == empty_count(states[0].next_features@),
        ids.len() > 0 ==> states[k].next_epoch == target_epoch,
    decreases k,
{
    if k > 0 {
        lemma_staging_run(states, ids, target_epoch, k - 1);
        let pre = states[k - 1];
        let post = states[k];
        assert(stage_outcome(pre, target_epoch) == Ok::<(), StagingError>(()));
        assert(staged_into(pre, ids[k - 1], post));
        let i = choose|i: int|
            is_first_empty(pre.next_features@, i) && post.next_features@
                == #[trigger] pre.next_features@.update(i, ids[k - 1]);
        lemma_fill_empty_slot(pre.next_features@, i, ids[k - 1]);
    } else if ids.len() > 0 {
        assert(stage_outcome(states[0], target_epoch) == Ok::<(), StagingError>(()));
    }
}

/// Capacity: once eight real identifiers have been staged one after another
/// for the same epoch, a further request for that epoch fails with
/// `StoreFull`, whatever identifier it carries.
pub proof fn lemma_capacity(states: Seq<StagedFeatures>, ids: Seq<FeatureId>, target_epoch: u64)
    requires
        states.len() == 9,
        ids.len() == 8,
        forall|j: int| 0 <= j < ids.len() ==> !(#[trigger] ids[j]).spec_is_empty(),
        forall|j: int|
            0 <= j < ids.len() ==> stage_outcome(#[trigger] states[j], target_epoch) == Ok::<
                (),
                StagingError,
            >(()) && staged_into(states[j], ids[j], states[j + 1]),
    ensures
        stage_outcome(states[8], target_epoch) == Err::<(), StagingError>(StagingError::StoreFull),
{
    lemma_staging_run(states, ids, target_epoch, 8);
    lemma_empty_count_bound(states[0].next_features@);
    let last = states[8].next_features@;
    assert(states[8].next_epoch == target_epoch);
    if exists|i: int| 0 <= i < last.len() && #[trigger] last[i].spec_is_empty() {
        let i = choose|i: int| 0 <= i < last.len() && #[trigger] last[i].spec_is_empty();
        lemma_empty_count_positive(last, i);
    }
}

} // verus!
