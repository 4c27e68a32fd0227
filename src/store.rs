//! The two-generation store and the operations that advance and fill it.

use vstd::prelude::*;

use crate::feature_set::{all_empty, has_empty_slot, is_first_empty, FeatureId, SLOT_COUNT};

verus! {

/// Why a feature could not be staged.
#[derive(Clone, Copy, Debug, PartialEq, Eq, Structural)]
pub enum StagingError {
    /// The target epoch is not the store's next epoch.
    InvalidTargetEpoch,
    /// Every slot of the next generation is taken.
    StoreFull,
}

/// The record of staged features: the generation active for
/// `current_epoch`, and the generation queued for `next_epoch`.
#[derive(Clone, Copy, Debug, PartialEq, Eq)]
pub struct StagedFeatures {
    pub current_epoch: u64,
    pub current_features: [FeatureId; 8],
    pub next_epoch: u64,
    pub next_features: [FeatureId; 8],
}

impl StagedFeatures {
    /// The next generation always lies strictly after the current one.
    pub open spec fn wf(self) -> bool {
        self.next_epoch > self.current_epoch
    }

    /// The store as created at genesis: epoch 0 is current, epoch 1 is next,
    /// and every slot of both generations is empty.
    pub fn genesis() -> (r: StagedFeatures)
        ensures
            r.current_epoch == 0,
            all_empty(r.current_features@),
            r.next_epoch == 1,
            all_empty(r.next_features@),
            r.wf(),
    {
        let e = FeatureId::empty();
        StagedFeatures {
            current_epoch: 0,
            current_features: [e; 8],
            next_epoch: 1,
            next_features: [e; 8],
        }
    }

    /// Rolls the store forward to the externally observed epoch
    /// `wall_epoch`. Once `wall_epoch` has reached the next epoch, the queued
    /// generation becomes current in full and an empty generation is opened
    /// for `wall_epoch + 1`; otherwise the store is left as it was.
    pub fn maybe_update(&mut self, wall_epoch: u64)
        requires
            wall_epoch < u64::MAX,
        ensures
            update_post(*old(self), wall_epoch, *final(self)),
            old(self).wf() ==> final(self).wf(),
    {
        if wall_epoch >= self.next_epoch {
            self.current_epoch = self.next_epoch;
            self.current_features = self.next_features;
            self.next_epoch = wall_epoch + 1;
            let e = FeatureId::empty();
            self.next_features = [e; 8];
        }
    }

    /// Writes `feature_id` into the first empty slot of the next generation,
    /// provided `target_epoch` is exactly the next epoch. On failure the
    /// store is left as it was.
    pub fn stage_feature(&mut self, target_epoch: u64, feature_id: FeatureId) -> (r: Result<
        (),
        StagingError,
    >)
        ensures
            r == stage_outcome(*old(self), target_epoch),
            r is Ok ==> staged_into(*old(self), feature_id, *final(self)),
            r is Err ==> *final(self) == *old(self),
    {
        if target_epoch != self.next_epoch {
            return Err(StagingError::InvalidTargetEpoch);
        }
        let mut i: usize = 0;
        while i < SLOT_COUNT
            invariant
                i <= SLOT_COUNT,
                *self == *old(self),
                target_epoch == self.next_epoch,
                forall|j: int| 0 <= j < i ==> !(#[trigger] self.next_features@[j].spec_is_empty()),
            decreases SLOT_COUNT - i,
        {
            if self.next_features[i].is_empty() {
                assert(is_first_empty(old(self).next_features@, i as int));
                self.next_features[i] = feature_id;
                assert(self.next_features@ == old(self).next_features@.update(i as int, feature_id));
                return Ok(());
            }
            i = i + 1;
        }
        Err(StagingError::StoreFull)
    }
}

/// The rollover taken when `wall_epoch` has reached `pre.next_epoch`: the
/// queued generation becomes current, and the next generation is empty and
/// set for `wall_epoch + 1`.
pub open spec fn rolled_over(pre: StagedFeatures, wall_epoch: u64, post: StagedFeatures) -> bool {
    &&& post.current_epoch == pre.next_epoch
    &&& post.current_features == pre.next_features
    &&& post.next_epoch == wall_epoch + 1
    &&& all_empty(post.next_features@)
}

/// What `maybe_update(wall_epoch)` does: a rollover once `wall_epoch` has
/// reached the next epoch, and nothing before.
pub open spec fn update_post(pre: StagedFeatures, wall_epoch: u64, post: StagedFeatures) -> bool {
    if wall_epoch >= pre.next_epoch {
        rolled_over(pre, wall_epoch, post)
    } else {
        post == pre
    }
}

/// What `stage_feature(target_epoch, _)` returns on the store `s`: the epoch
/// is checked first, the free capacity second.
pub open spec fn stage_outcome(s: StagedFeatures, target_epoch: u64) -> Result<(), StagingError> {
    if target_epoch != s.next_epoch {
        Err(StagingError::InvalidTargetEpoch)
    } else if !has_empty_slot(s.next_features@) {
        Err(StagingError::StoreFull)
    } else {
        Ok(())
    }
}

/// `post` is `pre` with `id` written into the first empty slot of the next
/// generation, all else unchanged.
pub open spec fn staged_into(pre: StagedFeatures, id: FeatureId, post: StagedFeatures) -> bool {
    &&& post.current_epoch == pre.current_epoch
    &&& post.current_features == pre.current_features
    &&& post.next_epoch == pre.next_epoch
    &&& exists|i: int|
        is_first_empty(pre.next_features@, i) && post.next_features@ == #[trigger] pre.next_features@.update(i, id)
}

} // verus!
