//! An epoch-gated, double-buffered ledger of staged feature activations.
//!
//! The store keeps two generations of feature identifiers: the set that is
//! active for the current epoch, and the set that is queued for the next one.
//! Each epoch transition promotes the queued set in full and opens an empty
//! one for the epoch after the caller's.

pub mod feature_set;
pub mod instruction;
pub mod laws;
pub mod store;

pub use feature_set::{FeatureId, FEATURE_ID_BYTES, SLOT_COUNT};
pub use instruction::{
    simulate_signal_support_instruction, simulate_stage_feature_instruction,
    SimulatedProgramContext,
};
pub use store::{StagedFeatures, StagingError};
