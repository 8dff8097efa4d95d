use lib_consensus::mesh_consensus::config;
use lib_consensus::mesh_consensus::{
    ConsensusAction, ConsensusError, ConsensusMessage, ConsensusMessageType, ConsensusRound,
    ConsensusVote, MeshConsensusEngine, MeshValidator, MessagePayload, ProposalPayload,
    RoundManager, RoundPhase, ValidatorSet, ValidatorStatus, VoteType,
};
use std::time::Duration;

fn approve() -> ConsensusVote {
    ConsensusVote { vote_type: VoteType::Approve, block_hash: [0u8; 32], reason: None }
}

fn proposal_payload() -> ProposalPayload {
    ProposalPayload {
        block_hash: [0u8; 32],
        merkle_root: [1u8; 32],
        transaction_count: 5,
        proposer_signature: vec![],
        block_data: None,
    }
}

fn message(kind: ConsensusMessageType, height: u64, from: [u8; 32], payload: MessagePayload) -> ConsensusMessage {
    ConsensusMessage {
        message_type: kind,
        height,
        round: 0,
        validator_id: from,
        timestamp: 0,
        payload,
        signature: vec![],
    }
}

#[test]
fn test_consensus_engine_creation() {
    let mesh_id = [1u8; 32];
    let genesis_hash = [0u8; 32];
    let validator_id = [2u8; 32];

    let engine = MeshConsensusEngine::new(mesh_id, genesis_hash, Some(validator_id));

    assert_eq!(engine.mesh_id(), mesh_id);
    assert_eq!(engine.our_validator_id(), Some(validator_id));
    assert_eq!(engine.get_state().last_finalized_hash, genesis_hash);
}

#[test]
fn test_add_validators() {
    let mut engine = MeshConsensusEngine::new([1u8; 32], [0u8; 32], Some([2u8; 32]));

    engine.add_validator(MeshValidator::new([2u8; 32], [3u8; 32], 0));
    engine.add_validator(MeshValidator::new([4u8; 32], [5u8; 32], 0));
    engine.add_validator(MeshValidator::new([6u8; 32], [7u8; 32], 0));

    assert_eq!(engine.validators().active_count(), 3);
    assert_eq!(engine.get_state().validator_count, 3);
}

#[test]
fn test_consensus_config() {
    assert_eq!(Duration::from_millis(config::MESH_BLOCK_TIME_MS).as_secs(), 2);
    assert_eq!(config::MIN_VALIDATORS, 3);
    assert_eq!(config::CONSENSUS_THRESHOLD_PERCENT as f64 / 100.0, 0.67);
}

#[test]
fn test_round_manager_creation() {
    let manager = RoundManager::new(1, 0, [1u8; 32], 4);

    assert_eq!(manager.current_phase(), RoundPhase::Propose);
    assert!(!manager.has_consensus());
}

#[test]
fn round_test_phase_advancement() {
    let mut manager = RoundManager::new(1, 0, [1u8; 32], 4);

    // Can't advance without proposal
    assert!(!manager.try_advance_phase());

    // Add proposal
    manager.get_round_mut().proposal = Some(proposal_payload());

    // Now can advance to prevote
    assert!(manager.try_advance_phase());
    assert_eq!(manager.current_phase(), RoundPhase::Prevote);
}

#[test]
fn test_consensus_threshold() {
    let mut manager = RoundManager::new(1, 0, [1u8; 32], 4);

    manager.get_round_mut().proposal = Some(proposal_payload());
    manager.try_advance_phase();

    // Add prevotes (need 3/4 for 67%+)
    let round = manager.get_round_mut();
    round.add_prevote([2u8; 32], approve());
    round.add_prevote([3u8; 32], approve());

    // Not enough yet (2/4 = 50%)
    assert!(!round.has_prevote_consensus(4));

    // Add one more (3/4 = 75% >= 67%)
    round.add_prevote([4u8; 32], approve());

    assert!(round.has_prevote_consensus(4));
    assert!(manager.try_advance_phase());
    assert_eq!(manager.current_phase(), RoundPhase::Precommit);
}

#[test]
fn test_consensus_round_creation() {
    let proposer = [1u8; 32];
    let round = ConsensusRound::new(1, 0, proposer);

    assert_eq!(round.height, 1);
    assert_eq!(round.round, 0);
    assert_eq!(round.phase, RoundPhase::Propose);
    assert_eq!(round.proposer, proposer);
    assert!(!round.consensus_reached);
}

#[test]
fn test_prevote_consensus_threshold() {
    let mut round = ConsensusRound::new(1, 0, [1u8; 32]);
    let total_validators = 4;

    // Need 3/4 = 67%+ approval
    assert!(!round.has_prevote_consensus(total_validators));

    // Add 2 approve votes (50%)
    round.add_prevote([2u8; 32], approve());
    round.add_prevote([3u8; 32], approve());
    assert!(!round.has_prevote_consensus(total_validators));

    // Add 3rd approve vote (75% >= 67%)
    round.add_prevote([4u8; 32], approve());
    assert!(round.has_prevote_consensus(total_validators));
}

#[test]
fn types_test_phase_advancement() {
    let mut round = ConsensusRound::new(1, 0, [1u8; 32]);

    assert_eq!(round.phase, RoundPhase::Propose);
    round.advance_phase();
    assert_eq!(round.phase, RoundPhase::Prevote);
    round.advance_phase();
    assert_eq!(round.phase, RoundPhase::Precommit);
    round.advance_phase();
    assert_eq!(round.phase, RoundPhase::Commit);
    round.advance_phase();
    assert_eq!(round.phase, RoundPhase::Complete);
}

#[test]
fn test_validator_creation() {
    let validator = MeshValidator::new([1u8; 32], [2u8; 32], 0);

    assert_eq!(validator.reputation, 50);
    assert_eq!(validator.blocks_validated, 0);
    assert_eq!(validator.status, ValidatorStatus::Active);
    assert!(validator.is_active());
}

#[test]
fn test_validator_reputation() {
    let mut validator = MeshValidator::new([1u8; 32], [2u8; 32], 0);

    // Record validations increase reputation
    for _ in 0..10 {
        validator.record_validation();
    }
    assert_eq!(validator.reputation, 60);
    assert_eq!(validator.blocks_validated, 10);

    // Slash reputation
    validator.slash_reputation(20);
    assert_eq!(validator.reputation, 40);

    // Severe slash triggers slashed status
    validator.slash_reputation(35);
    assert_eq!(validator.status, ValidatorStatus::Slashed);
}

#[test]
fn test_validator_set() {
    let mut set = ValidatorSet::new();

    let v1 = MeshValidator::new([1u8; 32], [2u8; 32], 0);
    let v2 = MeshValidator::new([3u8; 32], [4u8; 32], 0);
    let v3 = MeshValidator::new([5u8; 32], [6u8; 32], 0);

    set.add_validator(v1);
    set.add_validator(v2);
    set.add_validator(v3);

    assert_eq!(set.active_count(), 3);

    // Test proposer rotation
    let p1 = set.get_proposer().unwrap();
    set.rotate_proposer();
    let p2 = set.get_proposer().unwrap();
    set.rotate_proposer();
    let p3 = set.get_proposer().unwrap();
    set.rotate_proposer();
    let p4 = set.get_proposer().unwrap();

    // Should cycle back to first proposer
    assert_eq!(p1, p4);
    assert_ne!(p1, p2);
    assert_ne!(p2, p3);
}

#[test]
fn rotation_cycles_through_every_active_validator() {
    let mut set = ValidatorSet::new();
    for i in 0..4u8 {
        set.add_validator(MeshValidator::new_at([i; 32], [9u8; 32], 0, 100));
    }
    let first = set.get_proposer().unwrap();
    assert_eq!(first, [0u8; 32]);
    let mut seen = vec![first];
    for _ in 0..3 {
        set.rotate_proposer();
        seen.push(set.get_proposer().unwrap());
    }
    assert_eq!(seen, vec![[0u8; 32], [1u8; 32], [2u8; 32], [3u8; 32]]);
    set.rotate_proposer();
    assert_eq!(set.get_proposer(), Some(first));
}

#[test]
fn empty_set_has_no_proposer_and_rotation_stays_at_zero() {
    let mut set = ValidatorSet::default();
    assert_eq!(set.get_proposer(), None);
    set.rotate_proposer();
    assert_eq!(set.get_proposer(), None);
    assert_eq!(set.active_count(), 0);
}

#[test]
fn a_validator_counts_once_however_often_it_votes() {
    let mut round = ConsensusRound::new(1, 0, [1u8; 32]);
    for _ in 0..5 {
        round.add_prevote([2u8; 32], approve());
    }
    assert!(!round.has_prevote_consensus(4));
    assert!(round.has_prevote_consensus(1));
    // A later reject from the same validator replaces its approval.
    round.add_prevote([2u8; 32], ConsensusVote { vote_type: VoteType::Reject, block_hash: [0u8; 32], reason: None });
    assert!(!round.has_prevote_consensus(1));
}

#[test]
fn threshold_is_sixty_seven_percent() {
    let mut round = ConsensusRound::new(1, 0, [1u8; 32]);
    for i in 0..66u8 {
        round.add_precommit([i; 32], approve());
    }
    assert!(!round.has_precommit_consensus(100));
    round.add_precommit([200u8; 32], approve());
    assert!(round.has_precommit_consensus(100));
    // 2 of 3 is below 67%, 3 of 3 reaches it.
    let mut small = ConsensusRound::new(1, 0, [1u8; 32]);
    small.add_precommit([1u8; 32], approve());
    small.add_precommit([2u8; 32], approve());
    assert!(!small.has_precommit_consensus(3));
    small.add_precommit([3u8; 32], approve());
    assert!(small.has_precommit_consensus(3));
    // No validators: nothing needed.
    assert!(ConsensusRound::new(1, 0, [1u8; 32]).has_precommit_consensus(0));
}

#[test]
fn complete_phase_is_final() {
    let mut round = ConsensusRound::new_at(1, 0, [1u8; 32], 77);
    assert_eq!(round.start_time, 77);
    for _ in 0..6 {
        round.advance_phase();
    }
    assert_eq!(round.phase, RoundPhase::Complete);
}

#[test]
fn phase_timeouts() {
    let manager = RoundManager::new(1, 0, [1u8; 32], 4);
    assert!(!manager.is_phase_timeout_at(499));
    assert!(manager.is_phase_timeout_at(500));
    let mut m = RoundManager::new(1, 0, [1u8; 32], 4);
    m.get_round_mut().phase = RoundPhase::Commit;
    assert!(!m.is_phase_timeout_at(199));
    assert!(m.is_phase_timeout_at(200));
    m.get_round_mut().phase = RoundPhase::Complete;
    assert!(!m.is_phase_timeout_at(1_000_000));
    assert!(!m.try_advance_phase_at(1_000_000));
}

#[test]
fn prevote_phase_advances_on_timeout_without_votes() {
    let mut m = RoundManager::new(1, 0, [1u8; 32], 4);
    m.get_round_mut().phase = RoundPhase::Prevote;
    assert!(!m.try_advance_phase_at(10));
    assert!(m.try_advance_phase_at(500));
    assert_eq!(m.current_phase(), RoundPhase::Precommit);
}

#[test]
fn validator_marks_and_offline_detection() {
    let mut v = MeshValidator::new_at([1u8; 32], [2u8; 32], 7, 1000);
    assert_eq!(v.last_seen, 1000);
    assert_eq!(v.voting_power, 1);
    assert_eq!(v.joined_at_height, 7);
    assert!(!v.is_offline_at(1300));
    assert!(v.is_offline_at(1301));
    assert!(!v.is_offline_at(10));
    v.status = ValidatorStatus::Offline;
    v.mark_online_at(2000);
    assert_eq!(v.status, ValidatorStatus::Active);
    assert_eq!(v.last_seen, 2000);
    v.record_proposal();
    assert_eq!(v.blocks_proposed, 1);
}

#[test]
fn reputation_caps_at_one_hundred_and_floors_at_zero() {
    let mut v = MeshValidator::new_at([1u8; 32], [2u8; 32], 0, 0);
    for _ in 0..80 {
        v.record_validation();
    }
    assert_eq!(v.reputation, 100);
    assert_eq!(v.blocks_validated, 80);
    v.slash_reputation(90);
    assert_eq!(v.reputation, 10);
    assert_eq!(v.status, ValidatorStatus::Active);
    v.slash_reputation(500);
    assert_eq!(v.reputation, 0);
    assert_eq!(v.status, ValidatorStatus::Slashed);
}

#[test]
fn silent_validators_go_offline_and_leave_the_rotation() {
    let mut set = ValidatorSet::new();
    set.add_validator(MeshValidator::new_at([1u8; 32], [0u8; 32], 0, 0));
    set.add_validator(MeshValidator::new_at([2u8; 32], [0u8; 32], 0, 900));
    set.update_statuses_at(1000);
    assert_eq!(set.active_count(), 1);
    assert_eq!(set.get_validator(&[1u8; 32]).unwrap().status, ValidatorStatus::Offline);
    assert_eq!(set.get_validator(&[2u8; 32]).unwrap().status, ValidatorStatus::Active);
    assert_eq!(set.get_proposer(), Some([2u8; 32]));
    let active = set.get_active_validators();
    assert_eq!(active.len(), 1);
    assert_eq!(active[0].validator_id, [2u8; 32]);
}

#[test]
fn removed_validators_stay_known_but_inactive() {
    let mut set = ValidatorSet::new();
    set.add_validator(MeshValidator::new_at([1u8; 32], [0u8; 32], 0, 0));
    set.add_validator(MeshValidator::new_at([2u8; 32], [0u8; 32], 0, 0));
    set.remove_validator(&[1u8; 32]);
    assert_eq!(set.active_count(), 1);
    assert_eq!(set.get_validator(&[1u8; 32]).unwrap().status, ValidatorStatus::Removed);
    set.remove_validator(&[9u8; 32]);
    assert_eq!(set.active_count(), 1);
    assert!(set.get_validator(&[9u8; 32]).is_none());
    if let Some(v) = set.get_validator_mut(&[2u8; 32]) {
        v.reputation = 77;
    }
    assert_eq!(set.get_validator(&[2u8; 32]).unwrap().reputation, 77);
}

fn engine_with(ids: &[[u8; 32]], ours: Option<[u8; 32]>) -> MeshConsensusEngine {
    let mut engine = MeshConsensusEngine::new([1u8; 32], [0u8; 32], ours);
    for id in ids {
        engine.add_validator(MeshValidator::new(*id, [9u8; 32], 0));
    }
    engine
}

#[test]
fn too_few_validators_cannot_start_a_height() {
    let mut engine = engine_with(&[[2u8; 32], [3u8; 32]], None);
    assert_eq!(
        engine.start_new_height(1),
        Err(ConsensusError::NotEnoughValidators { active: 2, required: 3 })
    );
    assert_eq!(engine.current_phase(), None);
}

#[test]
fn a_full_round_finalizes_the_proposed_block() {
    let ids = [[2u8; 32], [3u8; 32], [4u8; 32], [5u8; 32]];
    let mut engine = engine_with(&ids, Some([2u8; 32]));
    assert_eq!(engine.start_new_height(1), Ok(()));
    assert!(engine.get_state().is_proposer);
    assert_eq!(engine.current_phase(), Some(RoundPhase::Propose));

    let proposal = engine.create_proposal([7u8; 32], [8u8; 32], 3).unwrap();
    assert_eq!(proposal.message_type, ConsensusMessageType::Proposal);
    assert_eq!(proposal.height, 1);
    assert_eq!(engine.process_message_at(proposal, 10, 0), Ok(()));
    assert_eq!(engine.current_phase(), Some(RoundPhase::Prevote));

    for id in &ids[..3] {
        let vote = ConsensusVote { vote_type: VoteType::Approve, block_hash: [7u8; 32], reason: None };
        let m = message(ConsensusMessageType::Prevote, 1, *id, MessagePayload::Vote(vote));
        assert_eq!(engine.process_message_at(m, 10, 0), Ok(()));
    }
    assert_eq!(engine.current_phase(), Some(RoundPhase::Precommit));

    for id in &ids[..3] {
        let vote = ConsensusVote { vote_type: VoteType::Approve, block_hash: [7u8; 32], reason: None };
        let m = message(ConsensusMessageType::Precommit, 1, *id, MessagePayload::Vote(vote));
        assert_eq!(engine.process_message_at(m, 10, 0), Ok(()));
    }
    assert_eq!(engine.current_phase(), Some(RoundPhase::Commit));
    let commit = message(ConsensusMessageType::Commit, 1, ids[1], MessagePayload::Vote(approve()));
    assert_eq!(engine.process_message_at(commit, 10, 0), Ok(()));

    let actions = engine.tick_at(10, 250);
    assert_eq!(actions, vec![ConsensusAction::BlockFinalized { height: 1, block_hash: [7u8; 32] }]);
    assert_eq!(engine.get_state().last_finalized_height, 1);
    assert_eq!(engine.get_state().last_finalized_hash, [7u8; 32]);
    assert_eq!(engine.validators().get_validator(&ids[0]).unwrap().blocks_proposed, 1);

    assert_eq!(engine.finalize_block([7u8; 32]), Ok(()));
    assert_eq!(engine.current_phase(), None);
    assert_eq!(engine.get_state().height, 2);
    assert_eq!(engine.get_state().last_finalized_height, 1);
}

#[test]
fn refused_messages() {
    let ids = [[2u8; 32], [3u8; 32], [4u8; 32]];
    let mut engine = engine_with(&ids, Some([2u8; 32]));
    let vote = || MessagePayload::Vote(approve());
    // Before any round.
    let m = message(ConsensusMessageType::Prevote, 0, ids[0], vote());
    assert_eq!(engine.process_message_at(m, 0, 0), Err(ConsensusError::NoActiveRound));
    engine.start_new_height(0).unwrap();
    let m = message(ConsensusMessageType::Prevote, 0, [99u8; 32], vote());
    assert_eq!(engine.process_message_at(m, 0, 0), Err(ConsensusError::UnknownValidator));
    let m = message(ConsensusMessageType::Proposal, 0, ids[1], MessagePayload::Proposal(proposal_payload()));
    assert_eq!(engine.process_message_at(m, 0, 0), Err(ConsensusError::ProposalFromNonProposer));
    let m = message(ConsensusMessageType::Proposal, 0, ids[0], vote());
    assert_eq!(engine.process_message_at(m, 0, 0), Err(ConsensusError::InvalidPayload));
    let m = message(ConsensusMessageType::Prevote, 0, ids[1], MessagePayload::Proposal(proposal_payload()));
    assert_eq!(engine.process_message_at(m, 0, 0), Err(ConsensusError::InvalidPayload));
    let m = message(ConsensusMessageType::Commit, 0, ids[1], vote());
    assert_eq!(engine.process_message_at(m, 0, 0), Err(ConsensusError::CommitWithoutConsensus));
    // A message for another height is buffered, not refused.
    let m = message(ConsensusMessageType::Prevote, 5, [99u8; 32], vote());
    assert_eq!(engine.process_message_at(m, 0, 0), Ok(()));
    engine.remove_validator(&ids[2]);
    let m = message(ConsensusMessageType::Prevote, 0, ids[2], vote());
    assert_eq!(engine.process_message_at(m, 0, 0), Err(ConsensusError::InactiveValidator));
    assert_eq!(engine.get_state().validator_count, 2);
}

#[test]
fn message_creation_needs_a_role() {
    let observer = engine_with(&[[2u8; 32], [3u8; 32], [4u8; 32]], None);
    assert_eq!(observer.create_prevote(VoteType::Approve, [1u8; 32]).unwrap_err(), ConsensusError::NotValidator);
    assert_eq!(observer.create_proposal([1u8; 32], [1u8; 32], 0).unwrap_err(), ConsensusError::NotProposer);
    let mut member = engine_with(&[[2u8; 32], [3u8; 32], [4u8; 32]], Some([3u8; 32]));
    member.start_new_height(4).unwrap();
    assert_eq!(member.create_proposal([1u8; 32], [1u8; 32], 0).unwrap_err(), ConsensusError::NotProposer);
    let pc = member.create_precommit(VoteType::Reject, [6u8; 32]).unwrap();
    assert_eq!(pc.message_type, ConsensusMessageType::Precommit);
    assert_eq!(pc.height, 4);
    assert_eq!(pc.validator_id, [3u8; 32]);
    match pc.payload {
        MessagePayload::Vote(v) => {
            assert_eq!(v.vote_type, VoteType::Reject);
            assert_eq!(v.block_hash, [6u8; 32]);
        }
        _ => panic!("expected a vote"),
    }
}

#[test]
fn timeouts_request_new_rounds_then_give_up() {
    let ids = [[2u8; 32], [3u8; 32], [4u8; 32]];
    let mut engine = engine_with(&ids, None);
    engine.start_new_height(1).unwrap();
    assert_eq!(engine.tick_at(0, 100), vec![]);
    assert_eq!(engine.tick_at(0, 600), vec![ConsensusAction::RoundTimeout]);
    assert_eq!(engine.start_round(1, 10), Ok(()));
    assert_eq!(engine.get_state().round, 10);
    assert_eq!(engine.tick_at(0, 600), vec![ConsensusAction::HeightTimeout]);
    assert_eq!(engine.tick().unwrap().len(), 0);
}

#[test]
fn start_round_picks_proposer_by_round_number() {
    let ids = [[2u8; 32], [3u8; 32], [4u8; 32]];
    let mut engine = engine_with(&ids, Some([4u8; 32]));
    assert_eq!(engine.start_round(3, 5), Ok(()));
    assert!(engine.get_state().is_proposer);
    assert_eq!(engine.get_state().height, 3);
    let mut empty = engine_with(&[], None);
    assert_eq!(empty.start_round(2, 1), Err(ConsensusError::NoValidators));
    assert_eq!(empty.get_state().height, 2);
    assert_eq!(empty.get_state().round, 1);
    engine.rotate_proposer();
    assert_eq!(engine.validators().get_proposer(), Some([3u8; 32]));
}

#[test]
fn two_groups_reaching_the_threshold_overlap() {
    let mut first = ConsensusRound::new(1, 0, [1u8; 32]);
    let mut second = ConsensusRound::new(1, 0, [1u8; 32]);
    for i in 1..=3u8 {
        first.add_precommit([i; 32], approve());
    }
    for i in 2..=4u8 {
        second.add_precommit([i; 32], approve());
    }
    assert!(first.has_precommit_consensus(4));
    assert!(second.has_precommit_consensus(4));
    // Groups of two out of four (50%) do not reach the threshold.
    let mut third = ConsensusRound::new(1, 0, [1u8; 32]);
    third.add_precommit([1u8; 32], approve());
    third.add_precommit([4u8; 32], approve());
    assert!(!third.has_precommit_consensus(4));
}

#[test]
fn adding_an_active_validator_again_keeps_one_turn() {
    let mut set = ValidatorSet::new();
    set.add_validator(MeshValidator::new_at([1u8; 32], [2u8; 32], 0, 10));
    set.add_validator(MeshValidator::new_at([3u8; 32], [4u8; 32], 0, 10));
    let mut again = MeshValidator::new_at([1u8; 32], [9u8; 32], 5, 20);
    again.reputation = 70;
    set.add_validator(again);
    assert_eq!(set.active_count(), 2);
    let active = set.get_active_validators();
    assert_eq!(active.len(), 2);
    assert_eq!(active[0].validator_id, [1u8; 32]);
    assert_eq!(active[0].reputation, 70);
    assert_eq!(active[1].validator_id, [3u8; 32]);
    assert_eq!(set.get_validator(&[1u8; 32]).unwrap().wallet_address, [9u8; 32]);
}

#[test]
fn one_validator_added_three_times_cannot_start_a_height() {
    let mut engine = MeshConsensusEngine::new([1u8; 32], [0u8; 32], None);
    for _ in 0..3 {
        engine.add_validator(MeshValidator::new([2u8; 32], [3u8; 32], 0));
    }
    assert_eq!(engine.get_state().validator_count, 1);
    assert_eq!(
        engine.start_new_height(1),
        Err(ConsensusError::NotEnoughValidators { active: 1, required: 3 })
    );
}

#[test]
fn rotation_hands_the_turn_to_the_next_active_validator() {
    let mut set = ValidatorSet::new();
    for i in 1u8..4 {
        set.add_validator(MeshValidator::new_at([i; 32], [0u8; 32], 0, 10));
    }
    assert_eq!(set.get_proposer(), Some([1u8; 32]));
    set.rotate_proposer();
    assert_eq!(set.get_proposer(), Some([2u8; 32]));
    set.rotate_proposer();
    assert_eq!(set.get_proposer(), Some([3u8; 32]));
    set.rotate_proposer();
    assert_eq!(set.get_proposer(), Some([1u8; 32]));
    assert_eq!(ValidatorSet::new().get_proposer(), None);
}

#[test]
fn finalizing_a_block_moves_to_the_next_height() {
    let mut engine = MeshConsensusEngine::new([1u8; 32], [0u8; 32], None);
    assert_eq!(engine.finalize_block([5u8; 32]), Ok(()));
    assert_eq!(engine.get_state().height, 1);
    assert_eq!(engine.get_state().last_finalized_height, 0);
    assert_eq!(engine.get_state().last_finalized_hash, [5u8; 32]);
    assert_eq!(engine.current_phase(), None);
}

#[test]
fn the_phase_timer_starts_where_it_is_set() {
    let past = std::time::Instant::now().checked_sub(Duration::from_secs(10)).unwrap();
    let mut manager = RoundManager::new_at(1, 0, [1u8; 32], 4, 77, past);
    assert_eq!(manager.get_round().start_time, 77);
    assert!(manager.phase_elapsed_ms() >= 10_000);
    assert!(!manager.try_advance_phase_restarting_at(0, std::time::Instant::now()));
    assert!(manager.phase_elapsed_ms() >= 10_000);
    manager.get_round_mut().proposal = Some(proposal_payload());
    let future = std::time::Instant::now() + Duration::from_secs(3600);
    assert!(manager.try_advance_phase_restarting_at(0, future));
    assert_eq!(manager.current_phase(), RoundPhase::Prevote);
    assert_eq!(manager.phase_elapsed_ms(), 0);
    manager.reset_phase_timer_at(past);
    assert!(manager.phase_elapsed_ms() >= 10_000);
    manager.reset_phase_timer();
    assert!(manager.phase_elapsed_ms() < 10_000);
}

#[test]
fn timed_messages_carry_their_time() {
    let ids = [[2u8; 32], [3u8; 32], [4u8; 32]];
    let mut engine = engine_with(&ids, Some([2u8; 32]));
    assert_eq!(engine.start_new_height(1), Ok(()));
    let p = engine.create_proposal_at([7u8; 32], [8u8; 32], 3, 1234).unwrap();
    assert_eq!(p.timestamp, 1234);
    assert_eq!(p.height, 1);
    let v = engine.create_prevote_at(VoteType::Approve, [7u8; 32], 1235).unwrap();
    assert_eq!(v.timestamp, 1235);
    assert_eq!(v.message_type, ConsensusMessageType::Prevote);
    let c = engine.create_precommit_at(VoteType::Reject, [7u8; 32], 1236).unwrap();
    assert_eq!(c.timestamp, 1236);
    assert_eq!(c.message_type, ConsensusMessageType::Precommit);
    let outsider = engine_with(&ids, None);
    assert_eq!(outsider.create_prevote_at(VoteType::Approve, [7u8; 32], 1).unwrap_err(), ConsensusError::NotValidator);
}

#[test]
fn clones_keep_the_validators_and_rounds() {
    let mut set = ValidatorSet::new();
    set.add_validator(MeshValidator::new_at([1u8; 32], [2u8; 32], 0, 10));
    set.add_validator(MeshValidator::new_at([3u8; 32], [4u8; 32], 0, 10));
    set.rotate_proposer();
    let copy = set.clone();
    assert_eq!(copy.active_count(), 2);
    assert_eq!(copy.get_proposer(), Some([3u8; 32]));
    assert_eq!(copy.get_validator(&[1u8; 32]).unwrap().wallet_address, [2u8; 32]);
    let mut round = ConsensusRound::new(1, 0, [1u8; 32]);
    round.add_prevote([2u8; 32], approve());
    let round_copy = round.clone();
    assert!(!round_copy.has_prevote_consensus(2));
    assert!(round_copy.has_prevote_consensus(1));
}
