//! Instruction entry points: each rolls the store forward to the clock's
//! epoch before it does anything else.

use vstd::prelude::*;

use solana_program::program_error::ProgramError;

use crate::feature_set::FeatureId;
use crate::store::{stage_outcome, staged_into, update_post, StagedFeatures};

verus! {

#[verifier::external_type_specification]
#[verifier::external_body]
pub struct ExProgramError(ProgramError);

/// Relies on solana_program's `ProgramError::InvalidArgument`, the error that
/// a rejected staging request is reported as.
#[verifier::external_body]
fn invalid_argument() -> (r: ProgramError) {
    ProgramError::InvalidArgument
}

/// What an instruction sees: the epoch read from the clock, held fixed for
/// the whole instruction, and the store it works on.
pub struct SimulatedProgramContext {
    pub clock_sysvar_epoch: u64,
    pub staged_features_pda: StagedFeatures,
}

/// Rolls the store forward to the clock's epoch, then stages `feature_id`
/// for `target_epoch`. Either staging error is reported as
/// `ProgramError::InvalidArgument`.
pub fn simulate_stage_feature_instruction(
    context: &mut SimulatedProgramContext,
    target_epoch: u64,
    feature_id: FeatureId,
) -> (r: Result<(), ProgramError>)
    requires
        old(context).clock_sysvar_epoch < u64::MAX,
    ensures
        final(context).clock_sysvar_epoch == old(context).clock_sysvar_epoch,
        exists|mid: StagedFeatures|
            #[trigger] update_post(
                old(context).staged_features_pda,
                old(context).clock_sysvar_epoch,
                mid,
            ) && (r is Ok <==> stage_outcome(mid, target_epoch) is Ok) && (r is Ok ==> staged_into(
                mid,
                feature_id,
                final(context).staged_features_pda,
            )) && (r is Err ==> final(context).staged_features_pda == mid),
{
    context.staged_features_pda.maybe_update(context.clock_sysvar_epoch);
    let ghost mid = context.staged_features_pda;
    let staged = context.staged_features_pda.stage_feature(target_epoch, feature_id);
    let r = match staged {
        Ok(()) => Ok(()),
        Err(_) => Err(invalid_argument()),
    };
    assert(update_post(old(context).staged_features_pda, old(context).clock_sysvar_epoch, mid));
    r
}

/// Rolls the store forward to the clock's epoch. Bit `i` of `_bitmask`
/// would signal support for slot `i` of the current generation; tallying
/// those signals is left to the caller, so this always succeeds.
pub fn simulate_signal_support_instruction(
    context: &mut SimulatedProgramContext,
    _bitmask: u8,
) -> (r: Result<(), ProgramError>)
    requires
        old(context).clock_sysvar_epoch < u64::MAX,
    ensures
        r is Ok,
        final(context).clock_sysvar_epoch == old(context).clock_sysvar_epoch,
        update_post(
            old(context).staged_features_pda,
            old(context).clock_sysvar_epoch,
            final(context).staged_features_pda,
        ),
{
    context.staged_features_pda.maybe_update(context.clock_sysvar_epoch);
    Ok(())
}

} // verus!
