use lib_consensus::dao::amount::treasury_amount_of;
use lib_consensus::dao::encoding::{
    bootstrap_preimage, proposal_id_preimage, signature_from_digest, u128_le_bytes, u64_le_bytes,
    vote_id_preimage, vote_signature_preimage,
};
use lib_consensus::dao::{
    DaoEngine, DaoError, DaoProposalStatus, DaoProposalType, DaoTreasury, DaoVoteChoice,
    DaoVoteTally, SignatureAlgorithm, TreasuryTransactionType,
};

/// A deterministic 32-byte digest for the tests (FNV-1a folded into 32 bytes).
fn test_hasher(data: &[u8]) -> [u8; 32] {
    let mut out = [0u8; 32];
    let mut h: u64 = 0xcbf29ce484222325;
    for (i, b) in data.iter().enumerate() {
        h ^= *b as u64;
        h = h.wrapping_mul(0x100000001b3);
        out[i % 32] ^= (h >> 24) as u8;
    }
    for k in 0..32 {
        h = h.wrapping_mul(0x100000001b3) ^ k as u64;
        out[k] ^= (h >> 16) as u8;
    }
    out
}

fn citizen(n: u8) -> [u8; 32] {
    [n; 32]
}

fn treasury(engine: &DaoEngine) -> &DaoTreasury {
    engine.get_dao_treasury()
}

#[test]
fn new_engine_holds_the_bootstrap_treasury() {
    let engine = DaoEngine::new_at(&test_hasher, 1_700_000_000);
    let t = treasury(&engine);
    assert_eq!(t.total_balance, 250_000);
    assert_eq!(t.available_balance, 205_000);
    assert_eq!(t.allocated_funds, 0);
    assert_eq!(t.reserved_funds, 60_000);
    assert_eq!(t.transaction_history.len(), 1);
    let tx = &t.transaction_history[0];
    assert_eq!(tx.id, test_hasher(b"bootstrap"));
    assert_eq!(tx.transaction_type, TreasuryTransactionType::Deposit);
    assert_eq!(tx.amount, 250_000);
    assert_eq!(tx.timestamp, 1_700_000_000);
    assert_eq!(tx.description, "Initial treasury bootstrap funding");
    assert!(t.annual_budgets.is_empty());
    assert_eq!(engine.get_dao_proposals().len(), 0);
    let live = DaoEngine::new(&test_hasher);
    assert_eq!(live.get_dao_treasury().available_balance, 205_000);
}

#[test]
fn treasury_proposals_need_voting_power() {
    let mut engine = DaoEngine::new_at(&test_hasher, 0);
    let r = engine.create_dao_proposal_at(
        citizen(1), "Fund".to_string(), "amount:500 ZHTP".to_string(),
        DaoProposalType::TreasuryAllocation, 7, &test_hasher, 1000, 5,
    );
    assert_eq!(r, Err(DaoError::InsufficientVotingPower { required: 100, actual: 1 }));
    assert_eq!(engine.get_dao_proposals().len(), 0);
    assert_eq!(engine.get_dao_voting_power(&citizen(1)), 1);
}

#[test]
fn proposals_are_created_active_with_the_quorum_of_their_type() {
    let mut engine = DaoEngine::new_at(&test_hasher, 0);
    let now = 1_672_531_200 + 600;
    let id = engine
        .create_dao_proposal_at(citizen(1), "Upgrade".to_string(), "v2".to_string(),
            DaoProposalType::ProtocolUpgrade, 7, &test_hasher, now, 42)
        .unwrap();
    let pre = proposal_id_preimage(&citizen(1), &"Upgrade".to_string(), &"v2".to_string(), 42);
    assert_eq!(id, test_hasher(&pre));
    let p = engine.get_dao_proposal_by_id(&id).unwrap();
    assert_eq!(p.status, DaoProposalStatus::Active);
    assert_eq!(p.quorum_required, 30);
    assert_eq!(p.voting_start_time, now);
    assert_eq!(p.voting_end_time, now + 7 * 86_400);
    assert_eq!(p.created_at_height, 100);
    assert_eq!(p.vote_tally, DaoVoteTally::default());
    assert!(p.execution_params.is_none());
    let ubi = engine
        .create_dao_proposal_at(citizen(2), "UBI".to_string(), "".to_string(),
            DaoProposalType::UbiDistribution, 1, &test_hasher, 5, 1)
        .unwrap();
    assert_eq!(engine.get_dao_proposal_by_id(&ubi).unwrap().quorum_required, 20);
    assert_eq!(engine.get_dao_proposal_by_id(&ubi).unwrap().created_at_height, 0);
    let other = engine
        .create_dao_proposal_at(citizen(2), "Fees".to_string(), "".to_string(),
            DaoProposalType::FeeStructure, 1, &test_hasher, 5, 2)
        .unwrap();
    assert_eq!(engine.get_dao_proposal_by_id(&other).unwrap().quorum_required, 10);
    assert!(engine.get_dao_proposal_by_id(&[0u8; 32]).is_none());
}

#[test]
fn each_citizen_votes_once() {
    let mut engine = DaoEngine::new_at(&test_hasher, 0);
    let id = engine
        .create_dao_proposal_at(citizen(1), "Rules".to_string(), "".to_string(),
            DaoProposalType::GovernanceRules, 1, &test_hasher, 100, 1)
        .unwrap();
    let vote_id = engine
        .cast_dao_vote_at(citizen(2), id, DaoVoteChoice::Yes, Some("why".to_string()), &test_hasher, 150)
        .unwrap();
    assert_eq!(vote_id, test_hasher(&vote_id_preimage(&id, &citizen(2), &DaoVoteChoice::Yes, 150)));
    let again = engine.cast_dao_vote_at(citizen(2), id, DaoVoteChoice::No, None, &test_hasher, 160);
    assert_eq!(again, Err(DaoError::AlreadyVoted));
    let tally = engine.get_dao_proposal_by_id(&id).unwrap().vote_tally;
    assert_eq!(tally.total_votes, 1);
    assert_eq!(tally.yes_votes, 1);
    assert_eq!(tally.weighted_yes, 1);
    assert_eq!(tally.no_votes, 0);
    assert_eq!(tally.total_eligible_power, 100);
    let votes = engine.get_user_dao_votes(&citizen(2));
    assert_eq!(votes.len(), 1);
    assert_eq!(votes[0].id, vote_id);
    assert_eq!(votes[0].timestamp, 150);
    assert_eq!(votes[0].justification, Some("why".to_string()));
    let sig_digest = test_hasher(&vote_signature_preimage(&citizen(2), &id, &DaoVoteChoice::Yes));
    assert_eq!(votes[0].signature.signature, sig_digest.to_vec());
    assert!(engine.get_user_dao_votes(&citizen(3)).is_empty());
}

#[test]
fn votes_are_refused_outside_an_open_vote() {
    let mut engine = DaoEngine::new_at(&test_hasher, 0);
    assert_eq!(
        engine.cast_dao_vote_at(citizen(2), [5u8; 32], DaoVoteChoice::Yes, None, &test_hasher, 0),
        Err(DaoError::ProposalNotFound)
    );
    let id = engine
        .create_dao_proposal_at(citizen(1), "Rules".to_string(), "".to_string(),
            DaoProposalType::GovernanceRules, 1, &test_hasher, 100, 1)
        .unwrap();
    assert_eq!(
        engine.cast_dao_vote_at(citizen(2), id, DaoVoteChoice::Yes, None, &test_hasher, 100 + 86_401),
        Err(DaoError::VotingPeriodEnded)
    );
    // A vote at the very end of the period still counts.
    assert!(engine.cast_dao_vote_at(citizen(2), id, DaoVoteChoice::Abstain, None, &test_hasher, 100 + 86_400).is_ok());
    assert_eq!(engine.get_dao_proposal_by_id(&id).unwrap().vote_tally.abstain_votes, 1);
    assert_eq!(engine.process_expired_proposals_at(&test_hasher, 100 + 86_401), Ok(()));
    assert_eq!(engine.get_dao_proposal_by_id(&id).unwrap().status, DaoProposalStatus::Failed);
    assert_eq!(
        engine.cast_dao_vote_at(citizen(3), id, DaoVoteChoice::Yes, None, &test_hasher, 0),
        Err(DaoError::ProposalNotActive)
    );
}

fn proposal_with_votes(engine: &mut DaoEngine, yes: u8, no: u8, abstain: u8) -> [u8; 32] {
    let id = engine
        .create_dao_proposal_at(citizen(1), "Community".to_string(), "".to_string(),
            DaoProposalType::CommunityFunding, 1, &test_hasher, 100, 9)
        .unwrap();
    let mut n = 10u8;
    for (count, choice) in [(yes, DaoVoteChoice::Yes), (no, DaoVoteChoice::No), (abstain, DaoVoteChoice::Delegate(citizen(1)))] {
        for _ in 0..count {
            engine.cast_dao_vote_at(citizen(n), id, choice, None, &test_hasher, 200).unwrap();
            n += 1;
        }
    }
    id
}

#[test]
fn a_passed_proposal_is_executed() {
    let mut engine = DaoEngine::new_at(&test_hasher, 0);
    let id = proposal_with_votes(&mut engine, 6, 4, 0);
    let tally = engine.get_dao_proposal_by_id(&id).unwrap().vote_tally;
    assert_eq!(tally.total_votes, 10);
    assert_eq!(tally.total_eligible_power, 100);
    // Still open: nothing happens.
    assert_eq!(engine.process_expired_proposals_at(&test_hasher, 100 + 86_400), Ok(()));
    assert_eq!(engine.get_dao_proposal_by_id(&id).unwrap().status, DaoProposalStatus::Active);
    assert_eq!(engine.process_expired_proposals_at(&test_hasher, 100 + 86_401), Ok(()));
    assert_eq!(engine.get_dao_proposal_by_id(&id).unwrap().status, DaoProposalStatus::Executed);
    assert_eq!(engine.get_dao_treasury().available_balance, 205_000);
    assert_eq!(engine.get_dao_treasury().allocated_funds, 0);
    assert_eq!(engine.get_dao_treasury().transaction_history.len(), 1);
}

#[test]
fn a_passed_proposal_without_enough_approval_stays_passed() {
    let mut engine = DaoEngine::new_at(&test_hasher, 0);
    let id = proposal_with_votes(&mut engine, 4, 3, 3);
    let tally = engine.get_dao_proposal_by_id(&id).unwrap().vote_tally;
    assert_eq!(tally.abstain_votes, 3);
    assert_eq!(tally.weighted_abstain, 3);
    assert_eq!(tally.total_votes, tally.yes_votes + tally.no_votes + tally.abstain_votes);
    assert_eq!(
        engine.process_expired_proposals_at(&test_hasher, 100 + 86_401),
        Err(DaoError::InsufficientApproval { yes_votes: 4, total_votes: 10, required_percent: 50 })
    );
    assert_eq!(engine.get_dao_proposal_by_id(&id).unwrap().status, DaoProposalStatus::Passed);
}

#[test]
fn a_proposal_below_quorum_fails() {
    let mut engine = DaoEngine::new_at(&test_hasher, 0);
    let id = proposal_with_votes(&mut engine, 5, 0, 0);
    assert_eq!(engine.process_expired_proposals_at(&test_hasher, 100 + 86_401), Ok(()));
    assert_eq!(engine.get_dao_proposal_by_id(&id).unwrap().status, DaoProposalStatus::Failed);
}

#[test]
fn a_rejected_proposal_fails() {
    let mut engine = DaoEngine::new_at(&test_hasher, 0);
    let id = proposal_with_votes(&mut engine, 5, 5, 0);
    assert_eq!(engine.process_expired_proposals_at(&test_hasher, 100 + 86_401), Ok(()));
    assert_eq!(engine.get_dao_proposal_by_id(&id).unwrap().status, DaoProposalStatus::Failed);
}

#[test]
fn amounts_are_read_from_descriptions() {
    assert_eq!(treasury_amount_of(&"Fund it amount:500 ZHTP".to_string()), 500);
    assert_eq!(treasury_amount_of(&"no amount here".to_string()), 1000);
    assert_eq!(treasury_amount_of(&"amount:500".to_string()), 1000);
    assert_eq!(treasury_amount_of(&"amount: 42 x".to_string()), 1000);
    assert_eq!(treasury_amount_of(&"amount:\t42 x".to_string()), 42);
    assert_eq!(treasury_amount_of(&"amount:+7 ".to_string()), 7);
    assert_eq!(treasury_amount_of(&"amount:-7 ".to_string()), 1000);
    assert_eq!(treasury_amount_of(&"amount:+ ".to_string()), 1000);
    assert_eq!(treasury_amount_of(&"amount:18446744073709551615 ".to_string()), u64::MAX);
    assert_eq!(treasury_amount_of(&"amount:18446744073709551616 ".to_string()), 1000);
    assert_eq!(treasury_amount_of(&"amount:12x ".to_string()), 1000);
    assert_eq!(treasury_amount_of(&"é amount:\u{3000}77\u{a0} amount:5 ".to_string()), 77);
    assert_eq!(treasury_amount_of(&"amount amount:9 ".to_string()), 9);
}

#[test]
fn byte_layouts() {
    assert_eq!(u64_le_bytes(0x0102), vec![2, 1, 0, 0, 0, 0, 0, 0]);
    assert_eq!(u128_le_bytes(u128::MAX), vec![255u8; 16]);
    assert_eq!(bootstrap_preimage(), b"bootstrap".to_vec());
    let v = vote_id_preimage(&[1u8; 32], &[2u8; 32], &DaoVoteChoice::No, 0x0a0b);
    assert_eq!(v.len(), 73);
    assert_eq!(v[64], 2);
    assert_eq!(&v[65..67], &[0x0b, 0x0a]);
    let s = vote_signature_preimage(&[3u8; 32], &[4u8; 32], &DaoVoteChoice::Delegate([0u8; 32]));
    assert_eq!(s.len(), 65);
    assert_eq!(s[0], 3);
    assert_eq!(s[32], 4);
    assert_eq!(s[64], 4);
    let p = proposal_id_preimage(&[5u8; 32], &"ab".to_string(), &"é".to_string(), 1);
    assert_eq!(p.len(), 32 + 2 + 2 + 16);
    assert_eq!(&p[32..36], &[b'a', b'b', 0xc3, 0xa9]);
    assert_eq!(p[36], 1);
}

#[test]
fn vote_choice_codes_and_empty_tally() {
    assert_eq!(DaoVoteChoice::Yes.to_u8(), 1);
    assert_eq!(DaoVoteChoice::No.to_u8(), 2);
    assert_eq!(DaoVoteChoice::Abstain.to_u8(), 3);
    assert_eq!(DaoVoteChoice::Delegate([1u8; 32]).to_u8(), 4);
    let t = DaoVoteTally::default();
    assert_eq!(t.total_votes + t.yes_votes + t.no_votes + t.abstain_votes + t.total_eligible_power, 0);
    assert_eq!(t.weighted_yes + t.weighted_no + t.weighted_abstain, 0);
}

#[test]
fn signatures_carry_the_digest() {
    let s = signature_from_digest(&[7u8; 32], 99);
    assert_eq!(s.signature, vec![7u8; 32]);
    assert_eq!(s.public_key.dilithium_pk, vec![7u8; 32]);
    assert_eq!(s.public_key.kyber_pk, vec![7u8; 32]);
    assert_eq!(s.public_key.key_id, [7u8; 32]);
    assert_eq!(s.algorithm, SignatureAlgorithm::Dilithium2);
    assert_eq!(s.timestamp, 99);
}

#[test]
fn clock_readers_accept_and_refuse_like_the_timed_ones() {
    let mut engine = DaoEngine::new(&test_hasher);
    let id = engine
        .create_dao_proposal(citizen(1), "Rules".to_string(), "".to_string(), DaoProposalType::Emergency, 3, &test_hasher)
        .unwrap();
    assert!(engine.cast_dao_vote(citizen(2), id, DaoVoteChoice::No, None, &test_hasher).is_ok());
    assert_eq!(
        engine.cast_dao_vote(citizen(2), id, DaoVoteChoice::No, None, &test_hasher),
        Err(DaoError::AlreadyVoted)
    );
    assert_eq!(
        engine.create_dao_proposal(citizen(1), "T".to_string(), "".to_string(), DaoProposalType::TreasuryAllocation, 3, &test_hasher),
        Err(DaoError::InsufficientVotingPower { required: 100, actual: 1 })
    );
    assert_eq!(engine.process_expired_proposals(&test_hasher), Ok(()));
    assert_eq!(engine.get_dao_proposal_by_id(&id).unwrap().status, DaoProposalStatus::Active);
}

#[test]
fn an_expired_proposal_without_votes_fails_for_missing_quorum() {
    let mut engine = DaoEngine::new_at(&test_hasher, 0);
    let quiet = engine
        .create_dao_proposal_at(citizen(1), "Quiet".to_string(), "".to_string(),
            DaoProposalType::Emergency, 0, &test_hasher, 100, 1)
        .unwrap();
    let voted = engine
        .create_dao_proposal_at(citizen(1), "Voted".to_string(), "".to_string(),
            DaoProposalType::Emergency, 0, &test_hasher, 100, 2)
        .unwrap();
    for n in 2..12 {
        assert!(engine.cast_dao_vote_at(citizen(n), voted, DaoVoteChoice::Yes, None, &test_hasher, 100).is_ok());
    }
    assert_eq!(engine.process_expired_proposals(&test_hasher), Ok(()));
    assert_eq!(engine.get_dao_proposal_by_id(&quiet).unwrap().status, DaoProposalStatus::Failed);
    assert_eq!(engine.get_dao_proposal_by_id(&voted).unwrap().status, DaoProposalStatus::Executed);
}

#[test]
fn eligible_power_and_room_for_votes() {
    let mut engine = DaoEngine::new_at(&test_hasher, 0);
    assert_eq!(engine.calculate_total_eligible_power(), 1000);
    let id = engine
        .create_dao_proposal_at(citizen(1), "P".to_string(), "".to_string(),
            DaoProposalType::Emergency, 1, &test_hasher, 100, 1)
        .unwrap();
    assert!(engine.room_for_vote(&citizen(2), &id, &DaoVoteChoice::No));
    assert!(engine.room_for_vote(&citizen(2), &[9u8; 32], &DaoVoteChoice::Yes));
    assert!(engine.cast_dao_vote_at(citizen(2), id, DaoVoteChoice::No, None, &test_hasher, 100).is_ok());
    assert_eq!(engine.calculate_total_eligible_power(), 100);
    for n in 3..14 {
        assert!(engine.cast_dao_vote_at(citizen(n), id, DaoVoteChoice::Yes, None, &test_hasher, 100).is_ok());
    }
    assert_eq!(engine.calculate_total_eligible_power(), 120);
}

#[test]
fn votes_that_cannot_be_accepted_need_no_room_and_engines_clone() {
    let mut engine = DaoEngine::new_at(&test_hasher, 0);
    let id = engine
        .create_dao_proposal_at(citizen(1), "P".to_string(), "".to_string(),
            DaoProposalType::Emergency, 1, &test_hasher, 100, 1)
        .unwrap();
    assert!(engine.cast_dao_vote_at(citizen(2), id, DaoVoteChoice::Yes, None, &test_hasher, 100).is_ok());
    assert!(engine.room_for_vote(&citizen(2), &id, &DaoVoteChoice::Yes));
    assert!(engine.room_for_vote(&citizen(3), &id, &DaoVoteChoice::Abstain));
    let copy = engine.clone();
    assert_eq!(copy.get_dao_proposal_by_id(&id).unwrap().vote_tally.yes_votes, 1);
    assert_eq!(copy.get_dao_treasury().available_balance, engine.get_dao_treasury().available_balance);
}
