//! Mesh Consensus Engine
//!
//! Core BFT consensus engine for local mesh blockchain networks.
//! Coordinates validator participation, block proposals, and finalization.

use crate::clock::unix_time_secs;
use crate::id_map::same_id;
use crate::mesh_consensus::config::{MAX_ROUNDS_PER_HEIGHT, MIN_VALIDATORS};
use crate::mesh_consensus::round::{advanced_if, may_advance, phase_timed_out, RoundManager};
use crate::mesh_consensus::types::{
    approval_count, finalized, reaches_threshold, ConsensusMessage, ConsensusMessageType,
    ConsensusRound, ConsensusState, ConsensusVote, MessagePayload, ProposalPayload, RoundPhase,
    VoteType,
};
use crate::mesh_consensus::validator::{
    proposer_at, records_of, seen_at, MeshValidator, ValidatorSet, ValidatorStatus,
};
use std::collections::HashMap;
use vstd::std_specs::iter::IteratorSpec;
use vstd::prelude::*;

verus! {

broadcast use vstd::std_specs::hash::group_hash_axioms;

/// Actions the consensus engine requests.
#[derive(Debug, Clone, Copy, PartialEq, Eq)]
pub enum ConsensusAction {
    /// Block has been finalized
    BlockFinalized { height: u64, block_hash: [u8; 32] },
    /// Current round timed out, start new round
    RoundTimeout,
    /// Max rounds reached for this height
    HeightTimeout,
}

/// Why the consensus engine refused a request.
#[derive(Debug, Clone, Copy, PartialEq, Eq, Structural)]
pub enum ConsensusError {
    /// Fewer active validators than consensus needs
    NotEnoughValidators { active: usize, required: usize },
    /// No proposer available
    NoProposer,
    /// No validators available to select a proposer from
    NoValidators,
    /// Message from a validator the engine does not know
    UnknownValidator,
    /// Message from a validator that is not active
    InactiveValidator,
    /// No round is in progress
    NoActiveRound,
    /// Proposal from a validator that is not the round's proposer
    ProposalFromNonProposer,
    /// The payload does not fit the message type
    InvalidPayload,
    /// Commit message received but the round has no consensus
    CommitWithoutConsensus,
    /// This node is not the proposer for this round
    NotProposer,
    /// This node is not a validator
    NotValidator,
}

/// The buffer `b` with `m` appended to the messages of its height.
pub open spec fn buffered(b: Map<u64, Seq<ConsensusMessage>>, m: ConsensusMessage) -> Map<u64, Seq<ConsensusMessage>> {
    b.insert(m.height, (if b.contains_key(m.height) { b[m.height] } else { Seq::empty() }).push(m))
}

/// The buffer `b` without the heights below `height`.
pub open spec fn kept_from(b: Map<u64, Seq<ConsensusMessage>>, height: u64) -> Map<u64, Seq<ConsensusMessage>> {
    b.restrict(b.dom().filter(|h: u64| h >= height))
}

/// The error that refuses message `m` in a round managed by `rm`, if any.
pub open spec fn dispatch_error(rm: Option<RoundManager>, m: ConsensusMessage) -> Option<ConsensusError> {
    match rm {
        None => Some(ConsensusError::NoActiveRound),
        Some(rm) => match m.message_type {
            ConsensusMessageType::Proposal => if m.validator_id != rm.round_state().proposer {
                Some(ConsensusError::ProposalFromNonProposer)
            } else if !(m.payload is Proposal) {
                Some(ConsensusError::InvalidPayload)
            } else {
                None
            },
            ConsensusMessageType::Prevote | ConsensusMessageType::Precommit => if !(m.payload is Vote) {
                Some(ConsensusError::InvalidPayload)
            } else {
                None
            },
            ConsensusMessageType::Commit => if !rm.round_state().consensus_reached {
                Some(ConsensusError::CommitWithoutConsensus)
            } else {
                None
            },
        },
    }
}

/// The record of the sender of `m` after the message is handled at `now`: a
/// proposal counts one more proposed block; the sender is seen.
pub open spec fn credited(v: MeshValidator, m: ConsensusMessage, now: u64) -> MeshValidator {
    if m.message_type == ConsensusMessageType::Proposal {
        seen_at(MeshValidator { blocks_proposed: (v.blocks_proposed + 1) as u64, ..v }, now)
    } else {
        seen_at(v, now)
    }
}

/// `after` is `before` once message `m` has been accepted, with `total` validators
/// known to the round, `active` active validators, and `elapsed_ms` spent in the phase:
/// a proposal is stored, a prevote or precommit recorded for its sender, then the
/// round advances if it may; a precommit that advances the round with 67%+
/// approving precommits of the active validators marks consensus.
pub open spec fn round_after_message(
    before: ConsensusRound,
    after: ConsensusRound,
    m: ConsensusMessage,
    total: nat,
    active: nat,
    elapsed_ms: u128,
) -> bool {
    match m.message_type {
        ConsensusMessageType::Proposal => {
            let mid = ConsensusRound { proposal: Some(m.payload->Proposal_0), ..before };
            after == advanced_if(mid, may_advance(mid, total, elapsed_ms))
        },
        ConsensusMessageType::Prevote => {
            let mid = ConsensusRound { prevotes: after.prevotes, ..before };
            &&& after.prevotes@ == before.prevotes@.insert(m.validator_id, m.payload->Vote_0)
            &&& after == advanced_if(mid, may_advance(mid, total, elapsed_ms))
        },
        ConsensusMessageType::Precommit => {
            let mid = ConsensusRound { precommits: after.precommits, ..before };
            let adv = may_advance(mid, total, elapsed_ms);
            let moved = advanced_if(mid, adv);
            &&& after.precommits@ == before.precommits@.insert(m.validator_id, m.payload->Vote_0)
            &&& after == (if adv && reaches_threshold(approval_count(after.precommits@), active) {
                ConsensusRound { consensus_reached: true, ..moved }
            } else {
                moved
            })
        },
        ConsensusMessageType::Commit => after == before,
    }
}

/// The proposer that round number `round` selects among the `records` of the
/// active validators, round-robin.
pub open spec fn chosen_proposer(records: Seq<MeshValidator>, round: u32) -> Option<[u8; 32]> {
    if records.len() == 0 {
        None
    } else {
        Some(records[(round as nat % records.len()) as int].validator_id)
    }
}

/// Main consensus engine for mesh networks.
#[derive(Debug)]
pub struct MeshConsensusEngine {
    /// Mesh ID this consensus is for
    mesh_id: [u8; 32],
    /// This node's validator ID (if validator)
    our_validator_id: Option<[u8; 32]>,
    /// Set of validators
    validators: ValidatorSet,
    /// Current consensus state
    state: ConsensusState,
    /// Current round manager
    round_manager: Option<RoundManager>,
    /// Received messages for other heights
    message_buffer: HashMap<u64, Vec<ConsensusMessage>>,
}

/// Whether `id` is `ours`.
fn is_ours(id: &[u8; 32], ours: &Option<[u8; 32]>) -> (r: bool)
    ensures
        r == (*ours == Some(*id)),
{
    match ours {
        Some(o) => same_id(id, o),
        None => false,
    }
}

impl MeshConsensusEngine {
    pub closed spec fn mesh_id_view(&self) -> [u8; 32] {
        self.mesh_id
    }

    pub closed spec fn our_id_view(&self) -> Option<[u8; 32]> {
        self.our_validator_id
    }

    pub closed spec fn validators_view(&self) -> ValidatorSet {
        self.validators
    }

    pub closed spec fn state_view(&self) -> ConsensusState {
        self.state
    }

    pub closed spec fn manager_view(&self) -> Option<RoundManager> {
        self.round_manager
    }

    pub closed spec fn buffer_view(&self) -> Map<u64, Seq<ConsensusMessage>> {
        self.message_buffer@.map_values(|v: Vec<ConsensusMessage>| v@)
    }

    /// A round in progress before and after a step kept its phase timer.
    pub open spec fn timer_kept(before: Self, after: Self) -> bool {
        before.manager_view() is Some && after.manager_view() is Some ==>
            after.manager_view()->0.phase_start_view() == before.manager_view()->0.phase_start_view()
    }

    /// A round in progress before and after a step kept its phase timer unless
    /// its phase moved.
    pub open spec fn timer_kept_unless_moved(before: Self, after: Self) -> bool {
        before.manager_view() is Some && after.manager_view() is Some
            && after.manager_view()->0.round_state().phase == before.manager_view()->0.round_state().phase ==>
            after.manager_view()->0.phase_start_view() == before.manager_view()->0.phase_start_view()
    }

    /// The fields that no step of consensus changes are those of `other`.
    pub open spec fn same_identity(&self, other: Self) -> bool {
        &&& self.mesh_id_view() == other.mesh_id_view()
        &&& self.our_id_view() == other.our_id_view()
    }

    /// Creates an engine at genesis, with no validators and no round.
    pub fn new(mesh_id: [u8; 32], genesis_hash: [u8; 32], our_validator_id: Option<[u8; 32]>) -> (r: Self)
        ensures
            r.mesh_id_view() == mesh_id,
            r.our_id_view() == our_validator_id,
            r.validators_view().records() == Map::<[u8; 32], MeshValidator>::empty(),
            r.validators_view().active() == Seq::<[u8; 32]>::empty(),
            r.validators_view().proposer_index() == 0,
            r.state_view().height == 0,
            r.state_view().round == 0,
            r.state_view().current_round.is_fresh(0, 0, r.state_view().current_round.proposer),
            r.state_view().last_finalized_height == 0,
            r.state_view().last_finalized_hash == genesis_hash,
            r.state_view().validator_count == 0,
            !r.state_view().is_proposer,
            r.manager_view() is None,
            r.buffer_view() == Map::<u64, Seq<ConsensusMessage>>::empty(),
    {
        let r = MeshConsensusEngine {
            mesh_id,
            our_validator_id,
            validators: ValidatorSet::new(),
            state: ConsensusState::new(genesis_hash),
            round_manager: None,
            message_buffer: HashMap::new(),
        };
        assert(r.buffer_view() =~= Map::<u64, Seq<ConsensusMessage>>::empty());
        r
    }

    /// The mesh this engine runs consensus for.
    pub fn mesh_id(&self) -> (r: [u8; 32])
        ensures
            r == self.mesh_id_view(),
    {
        self.mesh_id
    }

    /// This node's validator id, if it is a validator.
    pub fn our_validator_id(&self) -> (r: Option<[u8; 32]>)
        ensures
            r == self.our_id_view(),
    {
        self.our_validator_id
    }

    /// The validator set.
    pub fn validators(&self) -> (r: &ValidatorSet)
        ensures
            *r == self.validators_view(),
    {
        &self.validators
    }

    /// `after` is `before` once message `m` was handled at `now` (seconds since
    /// the Unix epoch) with `elapsed_ms` spent in the current phase, with result `r`.
    /// A message for another height is buffered. Otherwise a message from an
    /// unknown or inactive validator, or one the round cannot take, is refused and
    /// changes nothing; an accepted one updates the round and its sender's record.
    pub open spec fn message_handled(
        before: Self,
        after: Self,
        m: ConsensusMessage,
        r: Result<(), ConsensusError>,
        now: u64,
        elapsed_ms: u128,
    ) -> bool {
        let records = before.validators_view().records();
        let id = m.validator_id;
        &&& after.same_identity(before)
        &&& if m.height != before.state_view().height {
            &&& r is Ok
            &&& after.validators_view() == before.validators_view()
            &&& after.state_view() == before.state_view()
            &&& after.manager_view() == before.manager_view()
            &&& after.buffer_view() == buffered(before.buffer_view(), m)
        } else {
            let err = if !records.contains_key(id) {
                Some(ConsensusError::UnknownValidator)
            } else if records[id].status != ValidatorStatus::Active {
                Some(ConsensusError::InactiveValidator)
            } else {
                dispatch_error(before.manager_view(), m)
            };
            match err {
                Some(e) => r == Err::<(), ConsensusError>(e) && after == before,
                None => {
                    let rm = before.manager_view()->0;
                    &&& r is Ok
                    &&& after.state_view() == before.state_view()
                    &&& after.buffer_view() == before.buffer_view()
                    &&& after.validators_view().records() == records.insert(id, credited(records[id], m, now))
                    &&& after.validators_view().active() == before.validators_view().active()
                    &&& after.validators_view().proposer_index() == before.validators_view().proposer_index()
                    &&& after.manager_view() is Some
                    &&& after.manager_view()->0.total_validators() == rm.total_validators()
                    &&& round_after_message(
                        rm.round_state(),
                        after.manager_view()->0.round_state(),
                        m,
                        rm.total_validators(),
                        before.validators_view().active().len(),
                        elapsed_ms,
                    )
                },
            }
        }
    }

    /// `after` is `before` after one tick at `now` (seconds since the Unix epoch)
    /// with `elapsed_ms` spent in the current phase, requesting `actions`: silent
    /// validators go offline; a timed-out phase advances if it may, else the round
    /// (or, from round `MAX_ROUNDS_PER_HEIGHT` (10) on, the height) times out; a complete round with
    /// consensus and a proposal finalizes the proposed block.
    pub open spec fn ticked(before: Self, after: Self, actions: Seq<ConsensusAction>, now: u64, elapsed_ms: u128) -> bool {
        &&& after.same_identity(before)
        &&& after.buffer_view() == before.buffer_view()
        &&& after.validators_view().statuses_updated_from(before.validators_view(), now)
        &&& match before.manager_view() {
            None => {
                &&& after.manager_view() is None
                &&& after.state_view() == before.state_view()
                &&& actions == Seq::<ConsensusAction>::empty()
            },
            Some(rm) => {
                let round = rm.round_state();
                let timed_out = phase_timed_out(round.phase, elapsed_ms);
                let adv = timed_out && may_advance(round, rm.total_validators(), elapsed_ms);
                let r1 = advanced_if(round, adv);
                let timeouts = if timed_out && !adv {
                    seq![if before.state_view().round >= MAX_ROUNDS_PER_HEIGHT {
                        ConsensusAction::HeightTimeout
                    } else {
                        ConsensusAction::RoundTimeout
                    }]
                } else {
                    Seq::<ConsensusAction>::empty()
                };
                let fin = r1.consensus_reached && r1.phase == RoundPhase::Complete && r1.proposal is Some;
                &&& after.manager_view() is Some
                &&& after.manager_view()->0.round_state() == r1
                &&& after.manager_view()->0.total_validators() == rm.total_validators()
                &&& after.state_view() == (if fin {
                    finalized(before.state_view(), r1.proposal->0.block_hash)
                } else {
                    before.state_view()
                })
                &&& actions == (if fin {
                    timeouts.push(ConsensusAction::BlockFinalized {
                        height: before.state_view().height,
                        block_hash: r1.proposal->0.block_hash,
                    })
                } else {
                    timeouts
                })
            },
        }
    }

    /// `after` is `before` once the round took message `m` (of the current height,
    /// from a known active validator) with result `r`: a message the round cannot
    /// take changes nothing; otherwise the round is updated and a proposer is
    /// credited with its proposal.
    pub open spec fn dispatched(before: Self, after: Self, m: ConsensusMessage, r: Result<(), ConsensusError>, now: u64, elapsed_ms: u128) -> bool {
        let records = before.validators_view().records();
        match dispatch_error(before.manager_view(), m) {
            Some(e) => r == Err::<(), ConsensusError>(e) && after == before,
            None => {
                let rm = before.manager_view()->0;
                &&& r is Ok
                &&& after.same_identity(before)
                &&& after.state_view() == before.state_view()
                &&& after.buffer_view() == before.buffer_view()
                &&& after.validators_view().records() == (if m.message_type == ConsensusMessageType::Proposal {
                    records.insert(m.validator_id, credited(records[m.validator_id], m, now))
                } else {
                    records
                })
                &&& after.validators_view().active() == before.validators_view().active()
                &&& after.validators_view().proposer_index() == before.validators_view().proposer_index()
                &&& after.manager_view() is Some
                &&& after.manager_view()->0.total_validators() == rm.total_validators()
                &&& round_after_message(rm.round_state(), after.manager_view()->0.round_state(), m,
                    rm.total_validators(), before.validators_view().active().len(), elapsed_ms)
            },
        }
    }

    /// Adds a validator to the consensus; the state counts the active validators.
    pub fn add_validator(&mut self, validator: MeshValidator)
        ensures
            final(self).same_identity(*old(self)),
            final(self).validators_view().added_from(old(self).validators_view(), validator),
            final(self).state_view() == (ConsensusState {
                validator_count: final(self).validators_view().active().len() as usize,
                ..old(self).state_view()
            }),
            final(self).manager_view() == old(self).manager_view(),
            final(self).buffer_view() == old(self).buffer_view(),
    {
        self.validators.add_validator(validator);
        self.state.validator_count = self.validators.active_count();
    }

    /// Removes a validator; the state counts the active validators.
    pub fn remove_validator(&mut self, validator_id: &[u8; 32])
        ensures
            final(self).same_identity(*old(self)),
            final(self).validators_view().removed_from(old(self).validators_view(), *validator_id),
            final(self).state_view() == (ConsensusState {
                validator_count: final(self).validators_view().active().len() as usize,
                ..old(self).state_view()
            }),
            final(self).manager_view() == old(self).manager_view(),
            final(self).buffer_view() == old(self).buffer_view(),
    {
        self.validators.remove_validator(validator_id);
        self.state.validator_count = self.validators.active_count();
    }

    /// Starts consensus for block `height`: with at least three active
    /// validators, the proposer is the current round-robin one, round 0 begins,
    /// and buffered messages of lower heights are dropped.
    pub fn start_new_height(&mut self, height: u64) -> (r: Result<(), ConsensusError>)
        ensures
            final(self).same_identity(*old(self)),
            old(self).validators_view().active().len() < MIN_VALIDATORS ==> {
                &&& r == Err::<(), ConsensusError>(ConsensusError::NotEnoughValidators {
                    active: old(self).validators_view().active().len() as usize,
                    required: MIN_VALIDATORS,
                })
                &&& *final(self) == *old(self)
            },
            old(self).validators_view().active().len() >= MIN_VALIDATORS ==> {
                let p = proposer_at(old(self).validators_view().active(), old(self).validators_view().proposer_index())->0;
                &&& r is Ok
                &&& final(self).validators_view() == old(self).validators_view()
                &&& final(self).state_view() == (ConsensusState {
                    height,
                    round: 0,
                    current_round: final(self).state_view().current_round,
                    is_proposer: old(self).our_id_view() == Some(p),
                    ..old(self).state_view()
                })
                &&& final(self).state_view().current_round.is_fresh(height, 0, p)
                &&& final(self).manager_view() is Some
                &&& final(self).manager_view()->0.round_state().is_fresh(height, 0, p)
                &&& final(self).manager_view()->0.total_validators() == old(self).validators_view().active().len()
                &&& final(self).buffer_view() == kept_from(old(self).buffer_view(), height)
            },
    {
        let active = self.validators.active_count();
        if active < MIN_VALIDATORS {
            return Err(ConsensusError::NotEnoughValidators { active, required: MIN_VALIDATORS });
        }
        let proposer = match self.validators.get_proposer() {
            Some(p) => p,
            None => {
                return Err(ConsensusError::NoProposer);
            },
        };
        self.state.start_new_height(height, proposer);
        self.state.is_proposer = is_ours(&proposer, &self.our_validator_id);
        self.round_manager = Some(RoundManager::new(height, 0, proposer, active));
        drop_heights_below(&mut self.message_buffer, height);
        proof {
            assert(self.buffer_view() =~= kept_from(old(self).buffer_view(), height));
        }
        Ok(())
    }

    /// Handles a consensus message at `now` (seconds since the Unix epoch), with
    /// `elapsed_ms` spent in the current phase.
    pub fn process_message_at(&mut self, message: ConsensusMessage, now: u64, elapsed_ms: u128) -> (r: Result<(), ConsensusError>)
        requires
            message.message_type == ConsensusMessageType::Proposal
                && old(self).validators_view().records().contains_key(message.validator_id) ==>
                old(self).validators_view().records()[message.validator_id].blocks_proposed < u64::MAX,
        ensures
            Self::message_handled(*old(self), *final(self), message, r, now, elapsed_ms),
            Self::timer_kept(*old(self), *final(self)),
    {
        let ghost m = message;
        let ghost recs = self.validators.records();
        if message.height != self.state.height {
            let h = message.height;
            match self.message_buffer.remove(&h) {
                Some(mut msgs) => {
                    msgs.push(message);
                    self.message_buffer.insert(h, msgs);
                },
                None => {
                    let mut msgs: Vec<ConsensusMessage> = Vec::new();
                    msgs.push(message);
                    self.message_buffer.insert(h, msgs);
                },
            }
            proof {
                assert(self.buffer_view() =~= buffered(old(self).buffer_view(), m));
            }
            return Ok(());
        }
        let validator_id = message.validator_id;
        match self.validators.get_validator(&validator_id) {
            None => {
                return Err(ConsensusError::UnknownValidator);
            },
            Some(v) => {
                if v.status != ValidatorStatus::Active {
                    return Err(ConsensusError::InactiveValidator);
                }
            },
        }
        let r = match message.message_type {
            ConsensusMessageType::Proposal => self.process_proposal(message, now, elapsed_ms),
            ConsensusMessageType::Prevote => self.process_prevote(message, elapsed_ms),
            ConsensusMessageType::Precommit => self.process_precommit(message, elapsed_ms),
            ConsensusMessageType::Commit => self.process_commit(&message),
        };
        match r {
            Err(e) => {
                return Err(e);
            },
            Ok(()) => {},
        }
        match self.validators.get_validator_mut(&validator_id) {
            Some(v) => {
                v.mark_online_at(now);
            },
            None => {},
        }
        proof {
            assert(self.validators.records() =~= recs.insert(validator_id, credited(recs[validator_id], m, now)));
        }
        Ok(())
    }

    /// Takes a proposal from the round's proposer, credits the proposer, and
    /// advances the round if it may.
    fn process_proposal(&mut self, message: ConsensusMessage, now: u64, elapsed_ms: u128) -> (r: Result<(), ConsensusError>)
        requires
            message.message_type == ConsensusMessageType::Proposal,
            old(self).validators_view().records().contains_key(message.validator_id),
            old(self).validators_view().records()[message.validator_id].blocks_proposed < u64::MAX,
        ensures
            Self::dispatched(*old(self), *final(self), message, r, now, elapsed_ms),
            Self::timer_kept(*old(self), *final(self)),
    {
        let validator_id = message.validator_id;
        match &mut self.round_manager {
            None => Err(ConsensusError::NoActiveRound),
            Some(manager) => {
                if !same_id(&validator_id, &manager.get_round().proposer) {
                    return Err(ConsensusError::ProposalFromNonProposer);
                }
                let proposal = match message.payload {
                    MessagePayload::Proposal(p) => p,
                    _ => {
                        return Err(ConsensusError::InvalidPayload);
                    },
                };
                manager.get_round_mut().proposal = Some(proposal);
                match self.validators.get_validator_mut(&validator_id) {
                    Some(v) => {
                        v.blocks_proposed = v.blocks_proposed + 1;
                        v.mark_online_at(now);
                    },
                    None => {},
                }
                manager.try_advance_phase_at(elapsed_ms);
                Ok(())
            },
        }
    }

    /// Records a prevote of the round and advances the round if it may.
    fn process_prevote(&mut self, message: ConsensusMessage, elapsed_ms: u128) -> (r: Result<(), ConsensusError>)
        requires
            message.message_type == ConsensusMessageType::Prevote,
        ensures
            Self::dispatched(*old(self), *final(self), message, r, 0, elapsed_ms),
            Self::timer_kept(*old(self), *final(self)),
    {
        let validator_id = message.validator_id;
        match &mut self.round_manager {
            None => Err(ConsensusError::NoActiveRound),
            Some(manager) => {
                let vote = match message.payload {
                    MessagePayload::Vote(v) => v,
                    _ => {
                        return Err(ConsensusError::InvalidPayload);
                    },
                };
                manager.get_round_mut().add_prevote(validator_id, vote);
                manager.try_advance_phase_at(elapsed_ms);
                Ok(())
            },
        }
    }

    /// Records a precommit of the round, advances the round if it may, and marks
    /// consensus when the round advanced with 67%+ of the active validators
    /// approving.
    fn process_precommit(&mut self, message: ConsensusMessage, elapsed_ms: u128) -> (r: Result<(), ConsensusError>)
        requires
            message.message_type == ConsensusMessageType::Precommit,
        ensures
            Self::dispatched(*old(self), *final(self), message, r, 0, elapsed_ms),
            Self::timer_kept(*old(self), *final(self)),
    {
        let validator_id = message.validator_id;
        let active = self.validators.active_count();
        match &mut self.round_manager {
            None => Err(ConsensusError::NoActiveRound),
            Some(manager) => {
                let vote = match message.payload {
                    MessagePayload::Vote(v) => v,
                    _ => {
                        return Err(ConsensusError::InvalidPayload);
                    },
                };
                manager.get_round_mut().add_precommit(validator_id, vote);
                if manager.try_advance_phase_at(elapsed_ms) {
                    if manager.get_round().has_precommit_consensus(active) {
                        manager.mark_consensus_reached();
                    }
                }
                Ok(())
            },
        }
    }

    /// Accepts a commit message only for a round that reached consensus.
    fn process_commit(&self, message: &ConsensusMessage) -> (r: Result<(), ConsensusError>)
        requires
            message.message_type == ConsensusMessageType::Commit,
        ensures
            r == (match dispatch_error(self.manager_view(), *message) {
                Some(e) => Err(e),
                None => Ok::<(), ConsensusError>(()),
            }),
    {
        match &self.round_manager {
            None => Err(ConsensusError::NoActiveRound),
            Some(manager) => {
                if !manager.has_consensus() {
                    return Err(ConsensusError::CommitWithoutConsensus);
                }
                Ok(())
            },
        }
    }

    /// Handles a consensus message from another validator, reading the clocks.
    pub fn process_message(&mut self, message: ConsensusMessage) -> (r: Result<(), ConsensusError>)
        requires
            message.message_type == ConsensusMessageType::Proposal
                && old(self).validators_view().records().contains_key(message.validator_id) ==>
                old(self).validators_view().records()[message.validator_id].blocks_proposed < u64::MAX,
        ensures
            exists|now: u64, elapsed_ms: u128| #[trigger] Self::message_handled(*old(self), *final(self), message, r, now, elapsed_ms),
            Self::timer_kept_unless_moved(*old(self), *final(self)),
    {
        let ghost m = message;
        let now = unix_time_secs();
        let elapsed = match &self.round_manager {
            Some(manager) => manager.phase_elapsed_ms(),
            None => 0,
        };
        let before = self.current_phase();
        let r = self.process_message_at(message, now, elapsed);
        let ghost handled = *self;
        let after = self.current_phase();
        match &mut self.round_manager {
            Some(manager) => {
                if before != after {
                    manager.reset_phase_timer();
                }
            },
            None => {},
        }
        proof {
            assert(Self::message_handled(*old(self), handled, m, r, now, elapsed));
            assert(Self::message_handled(*old(self), *self, m, r, now, elapsed));
        }
        r
    }

    /// One tick at `now` (seconds since the Unix epoch) with `elapsed_ms` spent in
    /// the current phase: checks timeouts, advances phases and finalizes blocks.
    pub fn tick_at(&mut self, now: u64, elapsed_ms: u128) -> (actions: Vec<ConsensusAction>)
        ensures
            Self::ticked(*old(self), *final(self), actions@, now, elapsed_ms),
            Self::timer_kept(*old(self), *final(self)),
    {
        let mut actions: Vec<ConsensusAction> = Vec::new();
        self.validators.update_statuses_at(now);
        match &mut self.round_manager {
            Some(manager) => {
                if manager.is_phase_timeout_at(elapsed_ms) {
                    if !manager.try_advance_phase_at(elapsed_ms) {
                        if self.state.round >= MAX_ROUNDS_PER_HEIGHT {
                            actions.push(ConsensusAction::HeightTimeout);
                        } else {
                            actions.push(ConsensusAction::RoundTimeout);
                        }
                    }
                }
                if manager.has_consensus() && manager.current_phase() == RoundPhase::Complete {
                    match &manager.get_round().proposal {
                        Some(proposal) => {
                            let block_hash = proposal.block_hash;
                            self.state.finalize_block(block_hash);
                            actions.push(ConsensusAction::BlockFinalized { height: self.state.height, block_hash });
                        },
                        None => {},
                    }
                }
            },
            None => {},
        }
        actions
    }

    /// One tick of the engine, reading the clocks: checks timeouts, advances
    /// phases and finalizes blocks.
    pub fn tick(&mut self) -> (r: Result<Vec<ConsensusAction>, ConsensusError>)
        ensures
            r is Ok,
            exists|now: u64, elapsed_ms: u128| #[trigger] Self::ticked(*old(self), *final(self), r->Ok_0@, now, elapsed_ms),
            Self::timer_kept_unless_moved(*old(self), *final(self)),
    {
        let now = unix_time_secs();
        let elapsed = match &self.round_manager {
            Some(manager) => manager.phase_elapsed_ms(),
            None => 0,
        };
        let before = self.current_phase();
        let actions = self.tick_at(now, elapsed);
        let ghost ticked_state = *self;
        let after = self.current_phase();
        match &mut self.round_manager {
            Some(manager) => {
                if before != after {
                    manager.reset_phase_timer();
                }
            },
            None => {},
        }
        let r: Result<Vec<ConsensusAction>, ConsensusError> = Ok(actions);
        proof {
            assert(Self::ticked(*old(self), ticked_state, r->Ok_0@, now, elapsed));
            assert(Self::ticked(*old(self), *self, r->Ok_0@, now, elapsed));
        }
        r
    }

    /// A proposal message for the current round stamped `now` (seconds since the
    /// Unix epoch), if this node is its proposer.
    pub fn create_proposal_at(&self, block_hash: [u8; 32], merkle_root: [u8; 32], tx_count: u32, now: u64) -> (r: Result<ConsensusMessage, ConsensusError>)
        ensures
            !self.state_view().is_proposer ==> r == Err::<ConsensusMessage, ConsensusError>(ConsensusError::NotProposer),
            self.state_view().is_proposer && self.our_id_view() is None ==>
                r == Err::<ConsensusMessage, ConsensusError>(ConsensusError::NotValidator),
            self.state_view().is_proposer && self.our_id_view() is Some ==> {
                &&& r is Ok
                &&& r->Ok_0.message_type == ConsensusMessageType::Proposal
                &&& r->Ok_0.height == self.state_view().height
                &&& r->Ok_0.round == self.state_view().round
                &&& r->Ok_0.validator_id == self.our_id_view()->0
                &&& r->Ok_0.payload is Proposal
                &&& r->Ok_0.payload->Proposal_0.block_hash == block_hash
                &&& r->Ok_0.payload->Proposal_0.merkle_root == merkle_root
                &&& r->Ok_0.payload->Proposal_0.transaction_count == tx_count
                &&& r->Ok_0.payload->Proposal_0.proposer_signature@ == Seq::<u8>::empty()
                &&& r->Ok_0.payload->Proposal_0.block_data is None
                &&& r->Ok_0.signature@ == Seq::<u8>::empty()
                &&& r->Ok_0.timestamp == now
            },
    {
        if !self.state.is_proposer {
            return Err(ConsensusError::NotProposer);
        }
        let validator_id = match self.our_validator_id {
            Some(id) => id,
            None => {
                return Err(ConsensusError::NotValidator);
            },
        };
        let payload = ProposalPayload {
            block_hash,
            merkle_root,
            transaction_count: tx_count,
            proposer_signature: Vec::new(),
            block_data: None,
        };
        Ok(ConsensusMessage {
            message_type: ConsensusMessageType::Proposal,
            height: self.state.height,
            round: self.state.round,
            validator_id,
            timestamp: now,
            payload: MessagePayload::Proposal(payload),
            signature: Vec::new(),
        })
    }

    /// A proposal message for the current round stamped by the system clock, if
    /// this node is its proposer.
    pub fn create_proposal(&self, block_hash: [u8; 32], merkle_root: [u8; 32], tx_count: u32) -> (r: Result<ConsensusMessage, ConsensusError>)
        ensures
            !self.state_view().is_proposer ==> r == Err::<ConsensusMessage, ConsensusError>(ConsensusError::NotProposer),
            self.state_view().is_proposer && self.our_id_view() is None ==>
                r == Err::<ConsensusMessage, ConsensusError>(ConsensusError::NotValidator),
            self.state_view().is_proposer && self.our_id_view() is Some ==> {
                &&& r is Ok
                &&& r->Ok_0.message_type == ConsensusMessageType::Proposal
                &&& r->Ok_0.height == self.state_view().height
                &&& r->Ok_0.round == self.state_view().round
                &&& r->Ok_0.validator_id == self.our_id_view()->0
                &&& r->Ok_0.payload is Proposal
                &&& r->Ok_0.payload->Proposal_0.block_hash == block_hash
                &&& r->Ok_0.payload->Proposal_0.merkle_root == merkle_root
                &&& r->Ok_0.payload->Proposal_0.transaction_count == tx_count
                &&& r->Ok_0.payload->Proposal_0.proposer_signature@ == Seq::<u8>::empty()
                &&& r->Ok_0.payload->Proposal_0.block_data is None
                &&& r->Ok_0.signature@ == Seq::<u8>::empty()
            },
    {
        self.create_proposal_at(block_hash, merkle_root, tx_count, unix_time_secs())
    }

    /// A vote message of `kind` for the current round, if this node is a validator.
    fn create_vote(&self, kind: ConsensusMessageType, vote_type: VoteType, block_hash: [u8; 32], now: u64) -> (r: Result<ConsensusMessage, ConsensusError>)
        ensures
            self.our_id_view() is None ==> r == Err::<ConsensusMessage, ConsensusError>(ConsensusError::NotValidator),
            self.our_id_view() is Some ==> {
                &&& r is Ok
                &&& r->Ok_0.message_type == kind
                &&& r->Ok_0.height == self.state_view().height
                &&& r->Ok_0.round == self.state_view().round
                &&& r->Ok_0.validator_id == self.our_id_view()->0
                &&& r->Ok_0.payload == MessagePayload::Vote(ConsensusVote { vote_type, block_hash, reason: None })
                &&& r->Ok_0.signature@ == Seq::<u8>::empty()
                &&& r->Ok_0.timestamp == now
            },
    {
        let validator_id = match self.our_validator_id {
            Some(id) => id,
            None => {
                return Err(ConsensusError::NotValidator);
            },
        };
        let vote = ConsensusVote { vote_type, block_hash, reason: None };
        Ok(ConsensusMessage {
            message_type: kind,
            height: self.state.height,
            round: self.state.round,
            validator_id,
            timestamp: now,
            payload: MessagePayload::Vote(vote),
            signature: Vec::new(),
        })
    }

    /// A prevote message for the current round stamped `now` (seconds since the Unix
    /// epoch), if this node is a validator.
    pub fn create_prevote_at(&self, vote_type: VoteType, block_hash: [u8; 32], now: u64) -> (r: Result<ConsensusMessage, ConsensusError>)
        ensures
            self.our_id_view() is None ==> r == Err::<ConsensusMessage, ConsensusError>(ConsensusError::NotValidator),
            self.our_id_view() is Some ==> {
                &&& r is Ok
                &&& r->Ok_0.message_type == ConsensusMessageType::Prevote
                &&& r->Ok_0.height == self.state_view().height
                &&& r->Ok_0.round == self.state_view().round
                &&& r->Ok_0.validator_id == self.our_id_view()->0
                &&& r->Ok_0.payload == MessagePayload::Vote(ConsensusVote { vote_type, block_hash, reason: None })
                &&& r->Ok_0.signature@ == Seq::<u8>::empty()
                &&& r->Ok_0.timestamp == now
            },
    {
        self.create_vote(ConsensusMessageType::Prevote, vote_type, block_hash, now)
    }

    /// A prevote message for the current round stamped by the system clock, if this
    /// node is a validator.
    pub fn create_prevote(&self, vote_type: VoteType, block_hash: [u8; 32]) -> (r: Result<ConsensusMessage, ConsensusError>)
        ensures
            self.our_id_view() is None ==> r == Err::<ConsensusMessage, ConsensusError>(ConsensusError::NotValidator),
            self.our_id_view() is Some ==> {
                &&& r is Ok
                &&& r->Ok_0.message_type == ConsensusMessageType::Prevote
                &&& r->Ok_0.height == self.state_view().height
                &&& r->Ok_0.round == self.state_view().round
                &&& r->Ok_0.validator_id == self.our_id_view()->0
                &&& r->Ok_0.payload == MessagePayload::Vote(ConsensusVote { vote_type, block_hash, reason: None })
                &&& r->Ok_0.signature@ == Seq::<u8>::empty()
            },
    {
        self.create_prevote_at(vote_type, block_hash, unix_time_secs())
    }

    /// A precommit message for the current round stamped `now` (seconds since the Unix
    /// epoch), if this node is a validator.
    pub fn create_precommit_at(&self, vote_type: VoteType, block_hash: [u8; 32], now: u64) -> (r: Result<ConsensusMessage, ConsensusError>)
        ensures
            self.our_id_view() is None ==> r == Err::<ConsensusMessage, ConsensusError>(ConsensusError::NotValidator),
            self.our_id_view() is Some ==> {
                &&& r is Ok
                &&& r->Ok_0.message_type == ConsensusMessageType::Precommit
                &&& r->Ok_0.height == self.state_view().height
                &&& r->Ok_0.round == self.state_view().round
                &&& r->Ok_0.validator_id == self.our_id_view()->0
                &&& r->Ok_0.payload == MessagePayload::Vote(ConsensusVote { vote_type, block_hash, reason: None })
                &&& r->Ok_0.signature@ == Seq::<u8>::empty()
                &&& r->Ok_0.timestamp == now
            },
    {
        self.create_vote(ConsensusMessageType::Precommit, vote_type, block_hash, now)
    }

    /// A precommit message for the current round stamped by the system clock, if this
    /// node is a validator.
    pub fn create_precommit(&self, vote_type: VoteType, block_hash: [u8; 32]) -> (r: Result<ConsensusMessage, ConsensusError>)
        ensures
            self.our_id_view() is None ==> r == Err::<ConsensusMessage, ConsensusError>(ConsensusError::NotValidator),
            self.our_id_view() is Some ==> {
                &&& r is Ok
                &&& r->Ok_0.message_type == ConsensusMessageType::Precommit
                &&& r->Ok_0.height == self.state_view().height
                &&& r->Ok_0.round == self.state_view().round
                &&& r->Ok_0.validator_id == self.our_id_view()->0
                &&& r->Ok_0.payload == MessagePayload::Vote(ConsensusVote { vote_type, block_hash, reason: None })
                &&& r->Ok_0.signature@ == Seq::<u8>::empty()
            },
    {
        self.create_precommit_at(vote_type, block_hash, unix_time_secs())
    }

    /// The current consensus state.
    pub fn get_state(&self) -> (r: &ConsensusState)
        ensures
            *r == self.state_view(),
    {
        &self.state
    }

    /// The phase of the current round, if a round is in progress.
    pub fn current_phase(&self) -> (r: Option<RoundPhase>)
        ensures
            r == (match self.manager_view() {
                Some(rm) => Some(rm.round_state().phase),
                None => None,
            }),
    {
        match &self.round_manager {
            Some(m) => Some(m.current_phase()),
            None => None,
        }
    }

    /// Rotates to the next proposer.
    pub fn rotate_proposer(&mut self)
        ensures
            final(self).same_identity(*old(self)),
            final(self).validators_view().rotated_from(old(self).validators_view()),
            final(self).state_view() == old(self).state_view(),
            final(self).manager_view() == old(self).manager_view(),
            final(self).buffer_view() == old(self).buffer_view(),
    {
        self.validators.rotate_proposer();
    }

    /// The proposer of `round`: round-robin over the records of the active validators.
    fn select_proposer(&self, round: u32) -> (r: Option<[u8; 32]>)
        ensures
            r == chosen_proposer(records_of(self.validators_view().active(), self.validators_view().records()), round),
    {
        let validators = self.validators.get_active_validators();
        if validators.len() == 0 {
            return None;
        }
        let index = (round as usize) % validators.len();
        Some(validators[index].validator_id)
    }

    /// Starts round `round` of `height`, its proposer chosen round-robin by the
    /// round number; the height and round are recorded even when no validator can
    /// propose.
    pub fn start_round(&mut self, height: u64, round: u64) -> (r: Result<(), ConsensusError>)
        ensures
            final(self).same_identity(*old(self)),
            final(self).validators_view() == old(self).validators_view(),
            final(self).buffer_view() == old(self).buffer_view(),
            ({
                let p = chosen_proposer(
                    records_of(old(self).validators_view().active(), old(self).validators_view().records()),
                    round as u32,
                );
                match p {
                    None => {
                        &&& r == Err::<(), ConsensusError>(ConsensusError::NoValidators)
                        &&& final(self).state_view() == (ConsensusState { height, round, ..old(self).state_view() })
                        &&& final(self).manager_view() == old(self).manager_view()
                    },
                    Some(p) => {
                        &&& r is Ok
                        &&& final(self).state_view() == (ConsensusState {
                            height,
                            round,
                            is_proposer: old(self).our_id_view() == Some(p),
                            ..old(self).state_view()
                        })
                        &&& final(self).manager_view() is Some
                        &&& final(self).manager_view()->0.round_state().is_fresh(height, round, p)
                        &&& final(self).manager_view()->0.total_validators() == old(self).state_view().validator_count
                    },
                }
            }),
    {
        self.state.height = height;
        self.state.round = round;
        let proposer = match self.select_proposer(round as u32) {
            Some(p) => p,
            None => {
                return Err(ConsensusError::NoValidators);
            },
        };
        self.state.is_proposer = is_ours(&proposer, &self.our_validator_id);
        self.round_manager = Some(RoundManager::new(height, round, proposer, self.state.validator_count));
        Ok(())
    }

    /// Finalizes `block_hash` at the current height, clears the round and
    /// advances to the next height.
    pub fn finalize_block(&mut self, block_hash: [u8; 32]) -> (r: Result<(), ConsensusError>)
        requires
            old(self).state_view().height < u64::MAX,
        ensures
            r is Ok,
            final(self).same_identity(*old(self)),
            final(self).validators_view() == old(self).validators_view(),
            final(self).buffer_view() == old(self).buffer_view(),
            final(self).state_view() == (ConsensusState {
                height: (old(self).state_view().height + 1) as u64,
                ..finalized(old(self).state_view(), block_hash)
            }),
            final(self).state_view().last_finalized_height == old(self).state_view().height,
            final(self).state_view().last_finalized_hash == block_hash,
            final(self).manager_view() is None,
    {
        self.state.finalize_block(block_hash);
        self.state.height = self.state.height + 1;
        self.round_manager = None;
        Ok(())
    }
}

/// Drops from `buffer` the messages of the heights below `height`.
fn drop_heights_below(buffer: &mut HashMap<u64, Vec<ConsensusMessage>>, height: u64)
    ensures
        final(buffer)@ == old(buffer)@.restrict(old(buffer)@.dom().filter(|h: u64| h >= height)),
{
    let ghost before = buffer@;
    let mut stale: Vec<u64> = Vec::new();
    let keys = buffer.keys();
    proof {
        assert(keys.remaining().unref().to_set() == before.dom());
    }
    for h in it: keys
        invariant
            before == buffer@,
            it.seq().unref().to_set() == before.dom(),
            forall|x: u64| #[trigger] stale@.contains(x) ==> x < height && before.contains_key(x),
            forall|j: int| 0 <= j < it.index() && *it.seq()[j] < height ==> stale@.contains(*it.seq()[j]),
    {
        proof {
            assert(it.seq().unref()[it.index()] == *h);
            assert(it.seq().unref().contains(*h));
            assert(before.dom().contains(*h));
        }
        let ghost prev = stale@;
        if *h < height {
            stale.push(*h);
            proof {
                assert(stale@ == prev.push(*h));
                assert forall|x: u64| #[trigger] prev.contains(x) implies stale@.contains(x) by {
                    let t = prev.index_of(x);
                    assert(stale@[t] == x);
                }
                assert forall|x: u64| #[trigger] stale@.contains(x) implies x < height && before.contains_key(x) by {
                    if x != *h {
                        let t = stale@.index_of(x);
                        assert(prev[t] == x);
                        assert(prev.contains(x));
                    }
                }
                assert(stale@[prev.len() as int] == *h);
                assert(stale@.contains(*h));
            }
        }
    }
    let mut i: usize = 0;
    while i < stale.len()
        invariant
            i <= stale@.len(),
            forall|x: u64| #[trigger] stale@.contains(x) ==> x < height && before.contains_key(x),
            forall|x: u64| #[trigger] before.contains_key(x) && x < height ==> stale@.contains(x),
            forall|x: u64| #[trigger] buffer@.contains_key(x) <==>
                (before.contains_key(x) && !stale@.take(i as int).contains(x)),
            forall|x: u64| #[trigger] buffer@.contains_key(x) ==> buffer@[x] == before[x],
        decreases stale@.len() - i,
    {
        let h = stale[i];
        let ghost prev = buffer@;
        buffer.remove(&h);
        proof {
            assert(buffer@ == prev.remove(h));
            let t0 = stale@.take(i as int);
            let t1 = stale@.take(i as int + 1);
            assert(t1 =~= t0.push(h));
            assert forall|x: u64| #[trigger] t1.contains(x) <==> (t0.contains(x) || x == h) by {
                if t1.contains(x) && x != h {
                    let t = t1.index_of(x);
                    assert(t0[t] == x);
                }
                if t0.contains(x) {
                    let t = t0.index_of(x);
                    assert(t1[t] == x);
                }
                if x == h {
                    assert(t1[i as int] == x);
                }
            }
        }
        i = i + 1;
    }
    proof {
        assert(stale@.take(stale@.len() as int) =~= stale@);
        assert(buffer@ =~= before.restrict(before.dom().filter(|h: u64| h >= height)));
    }
}

} // verus!
