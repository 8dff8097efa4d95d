//! DAO governance system: proposals, votes and the treasury.

pub mod dao_types;

pub use dao_types::{
    AnnualBudget, DaoProposal, DaoProposalStatus, DaoProposalType, DaoTreasury, DaoVote,
    DaoVoteChoice, DaoVoteTally, IdentityId, PublicKey, Signature, SignatureAlgorithm,
    TreasuryTransaction, TreasuryTransactionType,
};
pub mod encoding;
pub mod amount;
pub mod dao_engine;
pub use dao_engine::{DaoEngine, DaoError};
pub mod laws;
