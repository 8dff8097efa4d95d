//! Consensus configuration constants.

use vstd::prelude::*;

verus! {

/// Target block time for mesh consensus (2 seconds), in milliseconds.
pub const MESH_BLOCK_TIME_MS: u64 = 2000;

/// Timeout for the proposal phase, in milliseconds.
pub const PROPOSAL_TIMEOUT_MS: u64 = 500;

/// Timeout for the prevote phase, in milliseconds.
pub const PREVOTE_TIMEOUT_MS: u64 = 500;

/// Timeout for the precommit phase, in milliseconds.
pub const PRECOMMIT_TIMEOUT_MS: u64 = 500;

/// Brief finalization period of the commit phase, in milliseconds.
pub const COMMIT_TIMEOUT_MS: u64 = 200;

/// Minimum number of validators required for consensus.
pub const MIN_VALIDATORS: usize = 3;

/// Maximum number of validators per mesh.
pub const MAX_VALIDATORS: usize = 10;

/// Consensus threshold in percent (67% = 2/3 BFT requirement).
pub const CONSENSUS_THRESHOLD_PERCENT: u64 = 67;

/// Maximum rounds before timeout and round increment.
pub const MAX_ROUNDS_PER_HEIGHT: u64 = 10;

/// Validator rotation interval (blocks).
pub const VALIDATOR_ROTATION_INTERVAL: u64 = 100;

/// Seconds without a sign of life after which a validator counts as offline.
pub const OFFLINE_AFTER_SECS: u64 = 300;

} // verus!
