//! Mesh Consensus Types
//!
//! Core data structures for the mesh consensus protocol.

use crate::clock::unix_time_secs;
use crate::id_map::{lemma_keyed_map_count, matching_keys, IdMap};
use crate::mesh_consensus::config::CONSENSUS_THRESHOLD_PERCENT;
use vstd::prelude::*;

verus! {

/// Consensus message types for the mesh BFT protocol.
#[derive(Debug, Clone, Copy, PartialEq, Eq, Structural)]
pub enum ConsensusMessageType {
    /// Proposal message containing a block to validate
    Proposal,
    /// Prevote message (first voting phase)
    Prevote,
    /// Precommit message (commitment phase)
    Precommit,
    /// Commit message (finalization)
    Commit,
}

/// Vote type for consensus messages.
#[derive(Debug, Clone, Copy, PartialEq, Eq, Structural)]
pub enum VoteType {
    /// Vote in favor of the proposal
    Approve,
    /// Vote against the proposal
    Reject,
    /// Abstain from voting (validator online but neutral)
    Abstain,
}

/// Consensus message exchanged between validators.
#[derive(Debug, Clone)]
pub struct ConsensusMessage {
    /// Type of consensus message
    pub message_type: ConsensusMessageType,
    /// Height (block number) this message pertains to
    pub height: u64,
    /// Round number within this height
    pub round: u64,
    /// Validator ID who sent this message
    pub validator_id: [u8; 32],
    /// Timestamp of message creation
    pub timestamp: u64,
    /// Message payload (proposal data or vote)
    pub payload: MessagePayload,
    /// Signature from validator
    pub signature: Vec<u8>,
}

/// Payload of a consensus message.
#[derive(Debug, Clone)]
pub enum MessagePayload {
    /// Proposal containing block hash and transactions
    Proposal(ProposalPayload),
    /// Vote on a proposal
    Vote(ConsensusVote),
}

/// Proposal payload containing the block to validate.
#[derive(Debug, Clone)]
pub struct ProposalPayload {
    /// Hash of proposed block
    pub block_hash: [u8; 32],
    /// Merkle root of transactions
    pub merkle_root: [u8; 32],
    /// Number of transactions in block
    pub transaction_count: u32,
    /// Proposer's signature
    pub proposer_signature: Vec<u8>,
    /// Optional: Full block data (for small meshes)
    pub block_data: Option<Vec<u8>>,
}

/// Vote on a consensus proposal.
#[derive(Debug, Clone)]
pub struct ConsensusVote {
    /// Type of vote (approve/reject/abstain)
    pub vote_type: VoteType,
    /// Hash of block being voted on
    pub block_hash: [u8; 32],
    /// Optional reason for vote (debugging)
    pub reason: Option<String>,
}

/// Current phase of a consensus round.
#[derive(Debug, Clone, Copy, PartialEq, Eq, Structural)]
pub enum RoundPhase {
    /// Waiting for proposal
    Propose,
    /// Collecting prevotes
    Prevote,
    /// Collecting precommits
    Precommit,
    /// Finalizing block
    Commit,
    /// Round completed
    Complete,
}

/// The phase that follows `p`; `Complete` is final.
pub open spec fn next_phase(p: RoundPhase) -> RoundPhase {
    match p {
        RoundPhase::Propose => RoundPhase::Prevote,
        RoundPhase::Prevote => RoundPhase::Precommit,
        RoundPhase::Precommit => RoundPhase::Commit,
        RoundPhase::Commit => RoundPhase::Complete,
        RoundPhase::Complete => RoundPhase::Complete,
    }
}

/// Whether a vote approves the proposal.
pub open spec fn approves() -> spec_fn(ConsensusVote) -> bool {
    |v: ConsensusVote| v.vote_type == VoteType::Approve
}

/// Number of validators whose recorded vote approves.
pub open spec fn approval_count(votes: Map<[u8; 32], ConsensusVote>) -> nat {
    matching_keys(votes, approves()).len()
}

/// `approvals` out of `total_validators` reach the 67% threshold.
pub open spec fn reaches_threshold(approvals: nat, total_validators: nat) -> bool {
    100 * approvals >= CONSENSUS_THRESHOLD_PERCENT * total_validators
}

/// Consensus round tracking.
#[derive(Debug, Clone)]
pub struct ConsensusRound {
    /// Block height this round is for
    pub height: u64,
    /// Round number (increments on timeout)
    pub round: u64,
    /// Current phase of the round
    pub phase: RoundPhase,
    /// Proposer for this round
    pub proposer: [u8; 32],
    /// Current proposal (if any)
    pub proposal: Option<ProposalPayload>,
    /// Prevotes collected (validator_id -> vote)
    pub prevotes: IdMap<ConsensusVote>,
    /// Precommits collected (validator_id -> vote)
    pub precommits: IdMap<ConsensusVote>,
    /// When this round started
    pub start_time: u64,
    /// Whether this round reached consensus
    pub consensus_reached: bool,
}

/// Counts the approving votes of `votes`.
fn count_approvals(votes: &IdMap<ConsensusVote>) -> (n: usize)
    ensures
        n == approval_count(votes@),
{
    let len = votes.len();
    let mut n: usize = 0;
    let mut i: usize = 0;
    while i < len
        invariant
            len == votes.key_seq().len(),
            votes.well_keyed(),
            i <= len,
            n == votes.val_seq().take(i as int).filter(approves()).len(),
            n <= i,
        decreases len - i,
    {
        let v = votes.value_at(i);
        proof {
            let vs = votes.val_seq();
            assert(vs.take(i as int + 1) =~= vs.take(i as int).push(vs[i as int]));
            vs.take(i as int).lemma_filter_len_push(approves(), vs[i as int]);
        }
        match v.vote_type {
            VoteType::Approve => {
                n = n + 1;
            },
            _ => {},
        }
        i = i + 1;
    }
    proof {
        assert(votes.val_seq().take(len as int) =~= votes.val_seq());
        lemma_keyed_map_count(votes.key_seq(), votes.val_seq(), approves());
    }
    n
}

/// Whether `approvals` out of `total_validators` reach the threshold.
fn threshold_met(approvals: usize, total_validators: usize) -> (r: bool)
    ensures
        r == reaches_threshold(approvals as nat, total_validators as nat),
{
    (approvals as u128) * 100 >= (total_validators as u128) * (CONSENSUS_THRESHOLD_PERCENT as u128)
}

impl ConsensusRound {
    /// The round is a fresh one for `height`, `round` and `proposer`: in the
    /// propose phase, with no proposal, no votes and no consensus.
    pub open spec fn is_fresh(&self, height: u64, round: u64, proposer: [u8; 32]) -> bool {
        &&& self.height == height
        &&& self.round == round
        &&& self.phase == RoundPhase::Propose
        &&& self.proposer == proposer
        &&& self.proposal is None
        &&& self.prevotes@ == Map::<[u8; 32], ConsensusVote>::empty()
        &&& self.precommits@ == Map::<[u8; 32], ConsensusVote>::empty()
        &&& !self.consensus_reached
    }

    /// Creates a new round that started at `now` (seconds since the Unix epoch).
    pub fn new_at(height: u64, round: u64, proposer: [u8; 32], now: u64) -> (r: Self)
        ensures
            r.is_fresh(height, round, proposer),
            r.start_time == now,
    {
        ConsensusRound {
            height,
            round,
            phase: RoundPhase::Propose,
            proposer,
            proposal: None,
            prevotes: IdMap::new(),
            precommits: IdMap::new(),
            start_time: now,
            consensus_reached: false,
        }
    }

    /// Creates a new round, started now by the system clock.
    pub fn new(height: u64, round: u64, proposer: [u8; 32]) -> (r: Self)
        ensures
            r.is_fresh(height, round, proposer),
    {
        Self::new_at(height, round, proposer, unix_time_secs())
    }

    /// Whether 67%+ of `total_validators` prevoted to approve.
    pub fn has_prevote_consensus(&self, total_validators: usize) -> (r: bool)
        ensures
            r == reaches_threshold(approval_count(self.prevotes@), total_validators as nat),
    {
        let n = count_approvals(&self.prevotes);
        threshold_met(n, total_validators)
    }

    /// Whether 67%+ of `total_validators` precommitted to approve.
    pub fn has_precommit_consensus(&self, total_validators: usize) -> (r: bool)
        ensures
            r == reaches_threshold(approval_count(self.precommits@), total_validators as nat),
    {
        let n = count_approvals(&self.precommits);
        threshold_met(n, total_validators)
    }

    /// Records the prevote of `validator_id`, replacing an earlier one.
    pub fn add_prevote(&mut self, validator_id: [u8; 32], vote: ConsensusVote)
        ensures
            final(self).prevotes@ == old(self).prevotes@.insert(validator_id, vote),
            *final(self) == (ConsensusRound { prevotes: final(self).prevotes, ..*old(self) }),
    {
        self.prevotes.insert(validator_id, vote);
    }

    /// Records the precommit of `validator_id`, replacing an earlier one.
    pub fn add_precommit(&mut self, validator_id: [u8; 32], vote: ConsensusVote)
        ensures
            final(self).precommits@ == old(self).precommits@.insert(validator_id, vote),
            *final(self) == (ConsensusRound { precommits: final(self).precommits, ..*old(self) }),
    {
        self.precommits.insert(validator_id, vote);
    }

    /// Moves to the next phase; `Complete` stays `Complete`.
    pub fn advance_phase(&mut self)
        ensures
            *final(self) == (ConsensusRound { phase: next_phase(old(self).phase), ..*old(self) }),
    {
        self.phase = match self.phase {
            RoundPhase::Propose => RoundPhase::Prevote,
            RoundPhase::Prevote => RoundPhase::Precommit,
            RoundPhase::Precommit => RoundPhase::Commit,
            RoundPhase::Commit => RoundPhase::Complete,
            RoundPhase::Complete => RoundPhase::Complete,
        };
    }
}

/// Overall consensus state.
#[derive(Debug, Clone)]
pub struct ConsensusState {
    /// Current block height
    pub height: u64,
    /// Current round number
    pub round: u64,
    /// Current round details
    pub current_round: ConsensusRound,
    /// Last finalized block height
    pub last_finalized_height: u64,
    /// Last finalized block hash
    pub last_finalized_hash: [u8; 32],
    /// Total number of validators
    pub validator_count: usize,
    /// Is this node the current proposer?
    pub is_proposer: bool,
}

/// `s` with `block_hash` finalized at its current height and its round complete.
pub open spec fn finalized(s: ConsensusState, block_hash: [u8; 32]) -> ConsensusState {
    ConsensusState {
        last_finalized_height: s.height,
        last_finalized_hash: block_hash,
        current_round: ConsensusRound { consensus_reached: true, phase: RoundPhase::Complete, ..s.current_round },
        ..s
    }
}

impl ConsensusState {
    /// Creates the consensus state at genesis.
    pub fn new(genesis_hash: [u8; 32]) -> (r: Self)
        ensures
            r.height == 0,
            r.round == 0,
            r.current_round.is_fresh(0, 0, r.current_round.proposer),
            r.current_round.proposer@ == Seq::new(32, |i: int| 0u8),
            r.last_finalized_height == 0,
            r.last_finalized_hash == genesis_hash,
            r.validator_count == 0,
            !r.is_proposer,
    {
        ConsensusState {
            height: 0,
            round: 0,
            current_round: ConsensusRound::new(0, 0, [0u8; 32]),
            last_finalized_height: 0,
            last_finalized_hash: genesis_hash,
            validator_count: 0,
            is_proposer: false,
        }
    }

    /// Starts round 0 of `height` with `proposer`.
    pub fn start_new_height(&mut self, height: u64, proposer: [u8; 32])
        ensures
            final(self).height == height,
            final(self).round == 0,
            final(self).current_round.is_fresh(height, 0, proposer),
            final(self).last_finalized_height == old(self).last_finalized_height,
            final(self).last_finalized_hash == old(self).last_finalized_hash,
            final(self).validator_count == old(self).validator_count,
            final(self).is_proposer == old(self).is_proposer,
    {
        self.height = height;
        self.round = 0;
        self.current_round = ConsensusRound::new(height, 0, proposer);
    }

    /// Starts the next round of the current height with `proposer` (on timeout or failure).
    pub fn start_new_round(&mut self, proposer: [u8; 32])
        requires
            old(self).round < u64::MAX,
        ensures
            final(self).height == old(self).height,
            final(self).round == old(self).round + 1,
            final(self).current_round.is_fresh(old(self).height, (old(self).round + 1) as u64, proposer),
            final(self).last_finalized_height == old(self).last_finalized_height,
            final(self).last_finalized_hash == old(self).last_finalized_hash,
            final(self).validator_count == old(self).validator_count,
            final(self).is_proposer == old(self).is_proposer,
    {
        self.round = self.round + 1;
        self.current_round = ConsensusRound::new(self.height, self.round, proposer);
    }

    /// Records `block_hash` as finalized at the current height and completes the round.
    pub fn finalize_block(&mut self, block_hash: [u8; 32])
        ensures
            *final(self) == finalized(*old(self), block_hash),
    {
        self.last_finalized_height = self.height;
        self.last_finalized_hash = block_hash;
        self.current_round.consensus_reached = true;
        self.current_round.phase = RoundPhase::Complete;
    }
}

} // verus!
