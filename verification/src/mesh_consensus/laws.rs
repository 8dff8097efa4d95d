//! Properties of mesh consensus that span several operations.

use crate::id_map::matching_keys;
use crate::mesh_consensus::engine::{round_after_message, ConsensusAction, MeshConsensusEngine};
use crate::mesh_consensus::round::may_advance;
use crate::mesh_consensus::types::{
    approval_count, approves, next_phase, reaches_threshold, ConsensusMessage, ConsensusMessageType, ConsensusRound,
    ConsensusVote, RoundPhase, VoteType,
};
use crate::mesh_consensus::validator::{
    proposer_at, rotated, slashed, status_at, validated_at, MeshValidator, ValidatorSet, ValidatorStatus,
};
use vstd::prelude::*;

verus! {

/// The proposer index after `k` rotations among `count` active validators.
pub open spec fn rotations(index: nat, count: nat, k: nat) -> nat
    decreases k,
{
    if k == 0 {
        index
    } else {
        rotated(rotations(index, count, (k - 1) as nat), count)
    }
}

/// After `k` rotations the proposer index designates the validator `k` places
/// further round-robin.
pub proof fn lemma_rotations_advance(index: nat, count: nat, k: nat)
    requires
        count > 0,
    ensures
        rotations(index, count, k) as int % (count as int) == (index + k) as int % (count as int),
    decreases k,
{
    if k > 0 {
        lemma_rotations_advance(index, count, (k - 1) as nat);
        let prev = rotations(index, count, (k - 1) as nat);
        vstd::arithmetic::div_mod::lemma_mod_twice((prev + 1) as int, count as int);
        vstd::arithmetic::div_mod::lemma_add_mod_noop(prev as int, 1, count as int);
        vstd::arithmetic::div_mod::lemma_add_mod_noop((index + k - 1) as int, 1, count as int);
    }
}

/// Round-robin proposer rotation cycles: with the active validators unchanged,
/// rotating once per active validator brings back the same proposer.
pub proof fn lemma_rotation_cycles(active: Seq<[u8; 32]>, index: nat)
    requires
        active.len() > 0,
    ensures
        proposer_at(active, rotations(index, active.len(), active.len())) == proposer_at(active, index),
{
    let c = active.len();
    lemma_rotations_advance(index, c, c);
    vstd::arithmetic::div_mod::lemma_mod_twice(rotations(index, c, c) as int, c as int);
    vstd::arithmetic::div_mod::lemma_add_mod_noop(index as int, c as int, c as int);
    vstd::arithmetic::div_mod::lemma_mod_self_0(c as int);
    vstd::arithmetic::div_mod::lemma_mod_twice(index as int, c as int);
}

/// One rotation hands the proposer role to the next active validator in
/// round-robin order: from the id at position `k` of the active list to the id
/// at position `(k + 1) % n`, with the list and the records unchanged.
pub proof fn lemma_rotation_hands_to_next(before: ValidatorSet, after: ValidatorSet)
    requires
        after.rotated_from(before),
        before.active().len() > 0,
    ensures
        ({
            let n = before.active().len();
            let k = before.proposer_index() % n;
            &&& proposer_at(before.active(), before.proposer_index()) == Some(before.active()[k as int])
            &&& proposer_at(after.active(), after.proposer_index()) == Some(before.active()[((k + 1) % n) as int])
            &&& after.active() == before.active()
            &&& after.records() == before.records()
        }),
{
    let n = before.active().len() as int;
    let i = before.proposer_index() as int;
    vstd::arithmetic::div_mod::lemma_mod_twice(i + 1, n);
    vstd::arithmetic::div_mod::lemma_fundamental_div_mod(i, n);
    vstd::arithmetic::div_mod::lemma_mod_multiples_vanish(i / n, i % n + 1, n);
    assert(n * (i / n) + (i % n + 1) == i + 1);
}

/// Recording a validator's vote counts it at most once: the approvals grow by at
/// most one, and an approving vote never lowers them, so a reached 67% threshold
/// stays reached.
pub proof fn lemma_vote_counted_once(votes: Map<[u8; 32], ConsensusVote>, id: [u8; 32], vote: ConsensusVote, total_validators: nat)
    requires
        votes.dom().finite(),
    ensures
        approval_count(votes.insert(id, vote)) <= approval_count(votes) + 1,
        approves()(vote) ==> approval_count(votes.insert(id, vote)) >= approval_count(votes),
        approves()(vote) && reaches_threshold(approval_count(votes), total_validators) ==>
            reaches_threshold(approval_count(votes.insert(id, vote)), total_validators),
{
    let after = votes.insert(id, vote);
    let a = matching_keys(votes, approves());
    let b = matching_keys(after, approves());
    votes.dom().lemma_len_filter(|k: [u8; 32]| approves()(votes[k]));
    assert(after.dom() =~= votes.dom().insert(id));
    after.dom().lemma_len_filter(|k: [u8; 32]| approves()(after[k]));
    assert(b.subset_of(a.insert(id)));
    vstd::set_lib::lemma_len_subset(b, a.insert(id));
    if approves()(vote) {
        assert(a.subset_of(b));
        vstd::set_lib::lemma_len_subset(a, b);
    }
}

/// Only a precommit marks consensus: when handling a message takes a round
/// without consensus to one with it, the message was a precommit, the phase
/// moved on, and 67%+ of the `active` validators approve among the precommits.
pub proof fn lemma_only_precommit_sets_consensus(
    before: ConsensusRound,
    after: ConsensusRound,
    m: ConsensusMessage,
    total: nat,
    active: nat,
    elapsed_ms: u128,
)
    requires
        round_after_message(before, after, m, total, active, elapsed_ms),
        !before.consensus_reached,
        after.consensus_reached,
    ensures
        m.message_type == ConsensusMessageType::Precommit,
        after.phase == next_phase(before.phase),
        reaches_threshold(approval_count(after.precommits@), active),
{
}

/// The phases of a round follow one order: four moves lead from any phase to
/// `Complete`, which never moves on.
pub proof fn lemma_phases_reach_complete(p: RoundPhase)
    ensures
        next_phase(next_phase(next_phase(next_phase(p)))) == RoundPhase::Complete,
        next_phase(RoundPhase::Complete) == RoundPhase::Complete,
{
}

/// Reputation stays within 0..=100: recording validations and slashing keep a
/// reputation of at most 100 at most 100.
pub proof fn lemma_reputation_bounded(v: MeshValidator, now: u64, amount: u32)
    requires
        v.reputation <= 100,
    ensures
        validated_at(v, now).reputation <= 100,
        slashed(v, amount).reputation <= 100,
{
}

/// Byzantine fault tolerance of the 67% threshold: two groups of validators that
/// each reach the threshold share more than a third of all the validators, so
/// fewer than a third of faulty validators cannot make both groups agree.
pub proof fn lemma_quorums_intersect(a: Set<[u8; 32]>, b: Set<[u8; 32]>, validators: Set<[u8; 32]>)
    requires
        validators.finite(),
        validators.len() > 0,
        a.subset_of(validators),
        b.subset_of(validators),
        reaches_threshold(a.len(), validators.len()),
        reaches_threshold(b.len(), validators.len()),
    ensures
        3 * a.intersect(b).len() > validators.len(),
{
    vstd::set_lib::lemma_len_subset(a, validators);
    vstd::set_lib::lemma_len_subset(b, validators);
    vstd::set_lib::lemma_set_intersect_union_lens(a, b);
    vstd::set_lib::lemma_len_subset(a.union(b), validators);
}

/// The approval count of recorded votes is the number of validators whose vote
/// is `Approve`: rejections and abstentions never count. Recording a vote that
/// is not an approval never raises the count, and leaves it as it was for a
/// validator that had not voted.
pub proof fn lemma_only_approvals_count(votes: Map<[u8; 32], ConsensusVote>, id: [u8; 32], vote: ConsensusVote)
    requires
        votes.dom().finite(),
    ensures
        approval_count(votes) == votes.dom().filter(|k: [u8; 32]| votes[k].vote_type == VoteType::Approve).len(),
        vote.vote_type != VoteType::Approve ==> approval_count(votes.insert(id, vote)) <= approval_count(votes),
        vote.vote_type != VoteType::Approve && !votes.contains_key(id)
            ==> approval_count(votes.insert(id, vote)) == approval_count(votes),
        vote.vote_type == VoteType::Approve && !votes.contains_key(id)
            ==> approval_count(votes.insert(id, vote)) == approval_count(votes) + 1,
{
    let after = votes.insert(id, vote);
    let a = matching_keys(votes, approves());
    let b = matching_keys(after, approves());
    assert(a =~= votes.dom().filter(|k: [u8; 32]| votes[k].vote_type == VoteType::Approve));
    votes.dom().lemma_len_filter(|k: [u8; 32]| approves()(votes[k]));
    assert(after.dom() =~= votes.dom().insert(id));
    after.dom().lemma_len_filter(|k: [u8; 32]| approves()(after[k]));
    if vote.vote_type != VoteType::Approve {
        assert(b.subset_of(a));
        vstd::set_lib::lemma_len_subset(b, a);
        if !votes.contains_key(id) {
            assert(b =~= a);
        }
    } else if !votes.contains_key(id) {
        assert(b =~= a.insert(id));
        assert(!a.contains(id));
    }
}

/// The consensus threshold is 67%: `approvals` of `total` validators reach it
/// exactly when 100 times the approvals is at least 67 times the total.
pub proof fn lemma_threshold_is_two_thirds(approvals: nat, total: nat)
    ensures
        reaches_threshold(approvals, total) <==> 100 * approvals >= 67 * total,
        total == 4 ==> (reaches_threshold(approvals, total) <==> approvals >= 3),
{
}

/// When a round may leave its phase, with `total` validators and `elapsed_ms`
/// spent in the phase: the propose phase exactly once a proposal is in; the
/// prevote and precommit phases once 67%+ of the validators approve, or once
/// 500 ms have passed, and not before either; the commit phase exactly after
/// 200 ms; a complete round never.
pub proof fn lemma_phase_advance_rules(round: ConsensusRound, total: nat, elapsed_ms: u128)
    ensures
        round.phase == RoundPhase::Propose ==> (may_advance(round, total, elapsed_ms) <==> round.proposal is Some),
        round.phase == RoundPhase::Prevote ==> (may_advance(round, total, elapsed_ms) <==>
            (100 * approval_count(round.prevotes@) >= 67 * total || elapsed_ms >= 500)),
        round.phase == RoundPhase::Precommit ==> (may_advance(round, total, elapsed_ms) <==>
            (100 * approval_count(round.precommits@) >= 67 * total || elapsed_ms >= 500)),
        round.phase == RoundPhase::Commit ==> (may_advance(round, total, elapsed_ms) <==> elapsed_ms >= 200),
        round.phase == RoundPhase::Complete ==> !may_advance(round, total, elapsed_ms),
{
}

/// A tick finalizes a block only for a round that reached consensus (67%+
/// approving precommits) and is complete: without such a round the state,
/// including the last finalized height and hash, is unchanged and no
/// `BlockFinalized` action is requested.
pub proof fn lemma_tick_finalizes_only_with_consensus(
    before: MeshConsensusEngine,
    after: MeshConsensusEngine,
    actions: Seq<ConsensusAction>,
    now: u64,
    elapsed_ms: u128,
)
    requires
        MeshConsensusEngine::ticked(before, after, actions, now, elapsed_ms),
    ensures
        before.manager_view() is None || !before.manager_view()->0.round_state().consensus_reached ==> {
            &&& after.state_view() == before.state_view()
            &&& forall|i: int| 0 <= i < actions.len() ==> !(#[trigger] actions[i] is BlockFinalized)
        },
        forall|i: int| 0 <= i < actions.len() && #[trigger] actions[i] is BlockFinalized ==> {
            &&& before.manager_view() is Some
            &&& before.manager_view()->0.round_state().consensus_reached
            &&& after.manager_view()->0.round_state().phase == RoundPhase::Complete
            &&& actions[i]->BlockFinalized_block_hash == after.state_view().last_finalized_hash
            &&& after.state_view().last_finalized_height == before.state_view().height
        },
{
    match before.manager_view() {
        None => {},
        Some(rm) => {
            assert forall|i: int| 0 <= i < actions.len() && #[trigger] actions[i] is BlockFinalized implies {
                &&& before.manager_view() is Some
                &&& before.manager_view()->0.round_state().consensus_reached
                &&& after.manager_view()->0.round_state().phase == RoundPhase::Complete
                &&& actions[i]->BlockFinalized_block_hash == after.state_view().last_finalized_hash
                &&& after.state_view().last_finalized_height == before.state_view().height
            } by {
                if actions.len() >= 1 && i == actions.len() - 1 {
                } else {
                    assert(!(actions[i] is BlockFinalized));
                }
            }
        },
    }
}

/// Only active validators join the round-robin list: adding a validator whose
/// status is not `Active` leaves the list as it was, and an active validator
/// whose id is not listed yet joins its end.
pub proof fn lemma_only_active_validators_join(before: ValidatorSet, after: ValidatorSet, validator: MeshValidator)
    requires
        after.added_from(before, validator),
    ensures
        validator.status != ValidatorStatus::Active ==> after.active() == before.active(),
        validator.status == ValidatorStatus::Active && !before.active().contains(validator.validator_id)
            ==> after.active() == before.active().push(validator.validator_id),
        before.active().contains(validator.validator_id) ==> after.active() == before.active(),
        after.active().len() <= before.active().len() + 1,
        after.records()[validator.validator_id] == validator,
{
}

/// A round moves through its phases in one order: propose, prevote,
/// precommit, commit, complete, and stays complete.
pub proof fn lemma_phase_order()
    ensures
        next_phase(RoundPhase::Propose) == RoundPhase::Prevote,
        next_phase(RoundPhase::Prevote) == RoundPhase::Precommit,
        next_phase(RoundPhase::Precommit) == RoundPhase::Commit,
        next_phase(RoundPhase::Commit) == RoundPhase::Complete,
        next_phase(RoundPhase::Complete) == RoundPhase::Complete,
{
}

/// Recording a validated block counts it, marks the validator seen at `now`
/// (an offline validator is active again) and raises its reputation by one up
/// to 100; slashing lowers the reputation by the amount, not below 0, and a
/// validator left below 10 is slashed while one at 10 or more keeps its status.
pub proof fn lemma_validator_bookkeeping(v: MeshValidator, now: u64, amount: u32)
    requires
        v.blocks_validated < u64::MAX,
    ensures
        validated_at(v, now).blocks_validated == v.blocks_validated + 1,
        validated_at(v, now).last_seen == now,
        v.reputation < 100 ==> validated_at(v, now).reputation == v.reputation + 1,
        v.reputation >= 100 ==> validated_at(v, now).reputation == v.reputation,
        v.status == ValidatorStatus::Offline ==> validated_at(v, now).status == ValidatorStatus::Active,
        v.status != ValidatorStatus::Offline ==> validated_at(v, now).status == v.status,
        slashed(v, amount).reputation == (if v.reputation >= amount { v.reputation - amount } else { 0 }),
        slashed(v, amount).reputation < 10 ==> slashed(v, amount).status == ValidatorStatus::Slashed,
        slashed(v, amount).reputation >= 10 ==> slashed(v, amount).status == v.status,
{
}

/// A status update at `now` takes exactly the active validators silent for more
/// than 300 seconds offline, and changes nothing else.
pub proof fn lemma_offline_after_five_minutes(v: MeshValidator, now: u64)
    ensures
        v.status == ValidatorStatus::Active && now > v.last_seen + 300 ==> status_at(v, now)
            == (MeshValidator { status: ValidatorStatus::Offline, ..v }),
        !(v.status == ValidatorStatus::Active && now > v.last_seen + 300) ==> status_at(v, now) == v,
{
}

} // verus!
