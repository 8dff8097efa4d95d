//! DAO types and data structures.

use vstd::prelude::*;

verus! {

/// A 32-byte citizen identity.
pub type IdentityId = [u8; 32];

/// DAO proposal for governance decisions.
#[derive(Debug, Clone)]
pub struct DaoProposal {
    /// Unique proposal identifier
    pub id: [u8; 32],
    /// Proposal title
    pub title: String,
    /// Detailed description
    pub description: String,
    /// Proposer identity
    pub proposer: IdentityId,
    /// Type of proposal
    pub proposal_type: DaoProposalType,
    /// Current status
    pub status: DaoProposalStatus,
    /// Voting start time
    pub voting_start_time: u64,
    /// Voting end time
    pub voting_end_time: u64,
    /// Minimum quorum required (percentage)
    pub quorum_required: u8,
    /// Current vote tally
    pub vote_tally: DaoVoteTally,
    /// Proposal creation timestamp
    pub created_at: u64,
    /// Block height when proposal was created
    pub created_at_height: u64,
    /// Execution parameters (if passed)
    pub execution_params: Option<Vec<u8>>,
}

/// Types of DAO proposals.
#[derive(Debug, Clone, Copy, PartialEq, Eq, Structural)]
pub enum DaoProposalType {
    /// Universal Basic Income parameter changes
    UbiDistribution,
    /// Protocol upgrade proposals
    ProtocolUpgrade,
    /// Treasury fund allocation
    TreasuryAllocation,
    /// Validator set changes
    ValidatorUpdate,
    /// Economic parameter adjustments
    EconomicParams,
    /// Network governance rules
    GovernanceRules,
    /// Modify transaction fee structure
    FeeStructure,
    /// Emergency protocol changes
    Emergency,
    /// Community development funds
    CommunityFunding,
    /// Research and development grants
    ResearchGrants,
}

/// DAO proposal status.
#[derive(Debug, Clone, Copy, PartialEq, Eq, Structural)]
pub enum DaoProposalStatus {
    /// Proposal is in draft state
    Draft,
    /// Proposal is active and accepting votes
    Active,
    /// Proposal has passed and is ready for execution
    Passed,
    /// Proposal has failed (rejected or insufficient quorum)
    Failed,
    /// Proposal has been executed
    Executed,
    /// Proposal has been cancelled
    Cancelled,
    /// Proposal has expired without sufficient participation
    Expired,
}

/// Vote tally for a DAO proposal.
#[derive(Debug, Clone, Copy, PartialEq, Eq, Structural)]
pub struct DaoVoteTally {
    /// Total number of votes cast
    pub total_votes: u64,
    /// Number of "yes" votes
    pub yes_votes: u64,
    /// Number of "no" votes
    pub no_votes: u64,
    /// Number of "abstain" votes
    pub abstain_votes: u64,
    /// Total eligible voting power
    pub total_eligible_power: u64,
    /// Weighted yes votes (considering voting power)
    pub weighted_yes: u64,
    /// Weighted no votes (considering voting power)
    pub weighted_no: u64,
    /// Weighted abstain votes (considering voting power)
    pub weighted_abstain: u64,
}

/// The tally with no votes.
pub open spec fn empty_tally() -> DaoVoteTally {
    DaoVoteTally {
        total_votes: 0,
        yes_votes: 0,
        no_votes: 0,
        abstain_votes: 0,
        total_eligible_power: 0,
        weighted_yes: 0,
        weighted_no: 0,
        weighted_abstain: 0,
    }
}

impl Default for DaoVoteTally {
    fn default() -> (r: Self)
        ensures
            r == empty_tally(),
    {
        DaoVoteTally {
            total_votes: 0,
            yes_votes: 0,
            no_votes: 0,
            abstain_votes: 0,
            total_eligible_power: 0,
            weighted_yes: 0,
            weighted_no: 0,
            weighted_abstain: 0,
        }
    }
}

/// Public key part of a vote signature.
#[derive(Debug, Clone)]
pub struct PublicKey {
    /// Dilithium public key bytes
    pub dilithium_pk: Vec<u8>,
    /// Kyber public key bytes
    pub kyber_pk: Vec<u8>,
    /// Key identifier
    pub key_id: [u8; 32],
}

/// Signature scheme of a vote signature.
#[derive(Debug, Clone, Copy, PartialEq, Eq, Structural)]
pub enum SignatureAlgorithm {
    /// CRYSTALS-Dilithium level 2
    Dilithium2,
}

/// Signature over a vote.
#[derive(Debug, Clone)]
pub struct Signature {
    /// Signature bytes
    pub signature: Vec<u8>,
    /// Public key of the signer
    pub public_key: PublicKey,
    /// Signature scheme
    pub algorithm: SignatureAlgorithm,
    /// When the signature was made
    pub timestamp: u64,
}

/// Individual DAO vote.
#[derive(Debug, Clone)]
pub struct DaoVote {
    /// Vote identifier
    pub id: [u8; 32],
    /// Proposal being voted on
    pub proposal_id: [u8; 32],
    /// Voter identity
    pub voter: [u8; 32],
    /// Vote choice
    pub vote_choice: DaoVoteChoice,
    /// Voting power used
    pub voting_power: u64,
    /// Vote timestamp
    pub timestamp: u64,
    /// Vote signature
    pub signature: Signature,
    /// Optional justification for the vote
    pub justification: Option<String>,
}

/// DAO vote choices.
#[derive(Debug, Clone, Copy, PartialEq, Eq)]
pub enum DaoVoteChoice {
    /// Vote in favor of the proposal
    Yes,
    /// Vote against the proposal
    No,
    /// Abstain from voting (counted for quorum but not for/against)
    Abstain,
    /// Delegate vote to another participant
    Delegate(IdentityId),
}

/// The byte that encodes a vote choice.
pub open spec fn choice_code(c: DaoVoteChoice) -> u8 {
    match c {
        DaoVoteChoice::Yes => 1,
        DaoVoteChoice::No => 2,
        DaoVoteChoice::Abstain => 3,
        DaoVoteChoice::Delegate(_) => 4,
    }
}

impl DaoVoteChoice {
    /// Converts the vote choice to its byte code.
    pub fn to_u8(&self) -> (r: u8)
        ensures
            r == choice_code(*self),
    {
        match self {
            DaoVoteChoice::Yes => 1,
            DaoVoteChoice::No => 2,
            DaoVoteChoice::Abstain => 3,
            DaoVoteChoice::Delegate(_) => 4,
        }
    }
}

/// DAO treasury management.
#[derive(Debug, Clone)]
pub struct DaoTreasury {
    /// Total treasury balance (ZHTP tokens)
    pub total_balance: u64,
    /// Available balance for allocation
    pub available_balance: u64,
    /// Currently allocated funds
    pub allocated_funds: u64,
    /// Reserved funds (cannot be allocated)
    pub reserved_funds: u64,
    /// Treasury transaction history
    pub transaction_history: Vec<TreasuryTransaction>,
    /// Annual budget allocations
    pub annual_budgets: Vec<AnnualBudget>,
}

/// Treasury transaction record.
#[derive(Debug, Clone)]
pub struct TreasuryTransaction {
    /// Transaction identifier
    pub id: [u8; 32],
    /// Transaction type
    pub transaction_type: TreasuryTransactionType,
    /// Amount transferred
    pub amount: u64,
    /// Recipient (for outgoing transactions)
    pub recipient: Option<IdentityId>,
    /// Source (for incoming transactions)
    pub source: Option<IdentityId>,
    /// Associated proposal (if any)
    pub proposal_id: Option<[u8; 32]>,
    /// Transaction timestamp
    pub timestamp: u64,
    /// Transaction description
    pub description: String,
}

/// Types of treasury transactions.
#[derive(Debug, Clone, Copy, PartialEq, Eq, Structural)]
pub enum TreasuryTransactionType {
    /// Incoming funds (from protocol fees, donations, etc.)
    Deposit,
    /// Outgoing allocation to approved proposal
    Allocation,
    /// UBI distribution
    UbiDistribution,
    /// Validator rewards
    ValidatorRewards,
    /// Emergency fund usage
    Emergency,
    /// Community development funding
    CommunityFunding,
    /// Research grants
    ResearchGrant,
}

/// Annual budget allocation.
#[derive(Debug, Clone)]
pub struct AnnualBudget {
    /// Budget year
    pub year: u32,
    /// Total allocated budget
    pub total_allocation: u64,
    /// UBI allocation
    pub ubi_allocation: u64,
    /// Community development allocation
    pub community_allocation: u64,
    /// Research and development allocation
    pub research_allocation: u64,
    /// Emergency reserve allocation
    pub emergency_allocation: u64,
    /// Validator incentive allocation
    pub validator_allocation: u64,
    /// Spent amount so far
    pub spent_amount: u64,
    /// Budget approval proposal ID
    pub approval_proposal_id: [u8; 32],
}

} // verus!
