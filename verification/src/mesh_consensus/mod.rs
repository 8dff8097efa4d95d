//! Mesh Consensus Module
//!
//! Lightweight BFT consensus engine designed specifically for local mesh networks.
//! Provides fast finality (2-second target) for mesh blockchain blocks while
//! maintaining Byzantine fault tolerance with 67% (2/3) validator agreement.
//!
//! Consensus flow of a round: PROPOSE, then PREVOTE (validators vote on the
//! proposal), then PRECOMMIT once 67%+ prevotes approve, then COMMIT once 67%+
//! precommits approve, and the block is finalized.

pub mod config;
pub mod types;

pub use types::{
    ConsensusMessage, ConsensusMessageType, ConsensusRound, ConsensusState, ConsensusVote,
    MessagePayload, ProposalPayload, RoundPhase, VoteType,
};
pub mod validator;
pub use validator::{MeshValidator, ValidatorSet, ValidatorStatus};
pub mod round;
pub use round::RoundManager;
pub mod engine;
pub use engine::{ConsensusAction, ConsensusError, MeshConsensusEngine};
pub mod laws;
