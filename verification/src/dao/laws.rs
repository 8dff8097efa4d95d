//! Properties of DAO governance that span several operations.

use crate::dao::dao_engine::{
    approval_for, decide_expired, decided, eligible_power_of, executed, execution_error, is_expired, passes,
    quorum_for, tallied, DaoEngine, DaoError,
};
use crate::dao::dao_types::{DaoProposal, DaoProposalStatus, DaoVoteChoice, DaoVoteTally, IdentityId};
use vstd::prelude::*;

verus! {

/// The counts of a tally agree: every vote is a yes, a no or an abstention.
pub open spec fn tally_consistent(t: DaoVoteTally) -> bool {
    t.total_votes == t.yes_votes + t.no_votes + t.abstain_votes
}

/// Counting a vote keeps a tally's counts in agreement, and adds the voter's
/// power to exactly one of the weighted sums.
pub proof fn lemma_tally_stays_consistent(t: DaoVoteTally, choice: DaoVoteChoice, power: u64)
    requires
        tally_consistent(t),
        t.total_votes < u64::MAX,
        t.yes_votes < u64::MAX,
        t.no_votes < u64::MAX,
        t.abstain_votes < u64::MAX,
        t.weighted_yes + power <= u64::MAX,
        t.weighted_no + power <= u64::MAX,
        t.weighted_abstain + power <= u64::MAX,
    ensures
        tally_consistent(tallied(t, choice, power)),
        tallied(t, choice, power).total_votes == t.total_votes + 1,
        tallied(t, choice, power).weighted_yes + tallied(t, choice, power).weighted_no
            + tallied(t, choice, power).weighted_abstain == t.weighted_yes + t.weighted_no + t.weighted_abstain + power,
{
}

/// The eligible-power estimate is 1000 while no one has voted, and otherwise ten
/// per voter but never below 100.
pub proof fn lemma_eligible_power_estimate(voters: nat)
    ensures
        eligible_power_of(voters) >= 100,
        voters == 0 ==> eligible_power_of(voters) == 1000,
        voters > 0 ==> eligible_power_of(voters) == (if 10 * voters >= 100 { 10 * voters } else { 100 }),
{
}

/// A citizen votes at most once on a proposal: once a vote of `voter` on
/// `proposal_id` was accepted, any later vote of theirs on it is refused and
/// changes nothing, as a repeated vote while the voting period lasts.
pub proof fn lemma_single_vote<H: Fn(&[u8]) -> [u8; 32]>(
    e0: DaoEngine,
    e1: DaoEngine,
    e2: DaoEngine,
    voter: IdentityId,
    proposal_id: [u8; 32],
    c1: DaoVoteChoice,
    c2: DaoVoteChoice,
    j1: Option<String>,
    j2: Option<String>,
    hasher: H,
    t1: u64,
    t2: u64,
    r1: Result<[u8; 32], DaoError>,
    r2: Result<[u8; 32], DaoError>,
)
    requires
        DaoEngine::vote_cast(e0, e1, r1, voter, proposal_id, c1, j1, hasher, t1),
        r1 is Ok,
        DaoEngine::vote_cast(e1, e2, r2, voter, proposal_id, c2, j2, hasher, t2),
    ensures
        r2 is Err,
        e2 == e1,
        t2 <= e1.proposals()[proposal_id].voting_end_time ==> r2 == Err::<[u8; 32], DaoError>(DaoError::AlreadyVoted),
{
    assert(e1.voters()[proposal_id].contains_key(voter));
}

/// Executing proposals moves funds between the available and the allocated
/// balance and never creates or destroys any.
pub proof fn lemma_execution_conserves_funds(
    props: Map<[u8; 32], DaoProposal>,
    available: u64,
    allocated: u64,
    ids: Seq<[u8; 32]>,
)
    requires
        available + allocated <= u64::MAX,
    ensures
        executed(props, available, allocated, ids).1 + executed(props, available, allocated, ids).2 == available + allocated,
    decreases ids.len(),
{
    if ids.len() > 0 && props.contains_key(ids[0]) {
        let p = props[ids[0]];
        let spend = p.proposal_type == crate::dao::dao_types::DaoProposalType::TreasuryAllocation;
        let amount = crate::dao::amount::treasury_amount(p.description@);
        if crate::dao::dao_engine::execution_error(p, available) is None {
            lemma_execution_conserves_funds(
                props.insert(ids[0], DaoProposal { status: DaoProposalStatus::Executed, ..p }),
                if spend { (available - amount) as u64 } else { available },
                if spend { (allocated + amount) as u64 } else { allocated },
                ids.drop_first(),
            );
        }
    }
}

/// Executing proposals only marks proposals executed, and only those among
/// `ids`: every other field, and the set of proposals, stay as they were.
pub proof fn lemma_execution_only_marks(
    props: Map<[u8; 32], DaoProposal>,
    available: u64,
    allocated: u64,
    ids: Seq<[u8; 32]>,
)
    ensures
        executed(props, available, allocated, ids).0.dom() == props.dom(),
        forall|k: [u8; 32]| #[trigger] props.contains_key(k) ==> {
            let q = executed(props, available, allocated, ids).0[k];
            q == props[k] || q == (DaoProposal { status: DaoProposalStatus::Executed, ..props[k] })
        },
        forall|k: [u8; 32]| #[trigger] props.contains_key(k) && !ids.contains(k)
            ==> executed(props, available, allocated, ids).0[k] == props[k],
    decreases ids.len(),
{
    if ids.len() > 0 && props.contains_key(ids[0]) {
        let p = props[ids[0]];
        let spend = p.proposal_type == crate::dao::dao_types::DaoProposalType::TreasuryAllocation;
        let amount = crate::dao::amount::treasury_amount(p.description@);
        if crate::dao::dao_engine::execution_error(p, available) is None {
            let next = props.insert(ids[0], DaoProposal { status: DaoProposalStatus::Executed, ..p });
            lemma_execution_only_marks(
                next,
                if spend { (available - amount) as u64 } else { available },
                if spend { (allocated + amount) as u64 } else { allocated },
                ids.drop_first(),
            );
            assert(next.dom() =~= props.dom());
            assert forall|k: [u8; 32]| #[trigger] props.contains_key(k) implies {
                let q = executed(props, available, allocated, ids).0[k];
                q == props[k] || q == (DaoProposal { status: DaoProposalStatus::Executed, ..props[k] })
            } by {
                assert(next.contains_key(k));
                if k == ids[0] {
                    assert(DaoProposal { status: DaoProposalStatus::Executed, ..next[k] } == next[k]);
                }
            }
            assert forall|k: [u8; 32]| #[trigger] props.contains_key(k) && !ids.contains(k)
                implies executed(props, available, allocated, ids).0[k] == props[k] by {
                assert(next.contains_key(k));
                assert(ids[0] != k) by {
                    if ids[0] == k {
                        assert(ids.contains(ids[0]));
                    }
                }
                assert(!ids.drop_first().contains(k)) by {
                    if ids.drop_first().contains(k) {
                        let j = ids.drop_first().index_of(k);
                        assert(ids[j + 1] == k);
                    }
                }
            }
        }
    }
}

/// Processing expired proposals conserves the treasury's funds and leaves no
/// proposal active past its voting period, whether every execution succeeded or
/// not: an expired proposal that does not pass (short of its quorum, which one
/// without votes always is under a nonzero quorum, or without more yes than no
/// votes) is decided failed.
pub proof fn lemma_expired_processing<H: Fn(&[u8]) -> [u8; 32]>(
    before: DaoEngine,
    after: DaoEngine,
    r: Result<(), DaoError>,
    hasher: H,
    now: u64,
)
    requires
        DaoEngine::expired_processed(before, after, r, hasher, now),
        before.treasury().available_balance + before.treasury().allocated_funds <= u64::MAX,
    ensures
        after.treasury().available_balance + after.treasury().allocated_funds
            == before.treasury().available_balance + before.treasury().allocated_funds,
        after.treasury().total_balance == before.treasury().total_balance,
        after.proposals().dom() == before.proposals().dom(),
        forall|k: [u8; 32]| #[trigger] after.proposals().contains_key(k) ==> !is_expired(after.proposals()[k], now),
        forall|k: [u8; 32]| #[trigger] before.proposals().contains_key(k) && is_expired(before.proposals()[k], now)
            && !passes(before.proposals()[k]) ==> after.proposals()[k] == decided(before.proposals()[k])
                && after.proposals()[k].status == DaoProposalStatus::Failed,
{
    let d = decide_expired(before.proposals(), now);
    let ids = crate::dao::dao_engine::passed_ids(before.proposal_order(), before.proposals(), now);
    lemma_execution_conserves_funds(d, before.treasury().available_balance, before.treasury().allocated_funds, ids);
    lemma_execution_only_marks(d, before.treasury().available_balance, before.treasury().allocated_funds, ids);
    assert forall|k: [u8; 32]| #[trigger] after.proposals().contains_key(k) implies !is_expired(after.proposals()[k], now) by {
        assert(d.contains_key(k));
        let p = before.proposals()[k];
        if is_expired(p, now) {
            assert(d[k] == decided(p));
        }
    }
    assert forall|k: [u8; 32]| #[trigger] before.proposals().contains_key(k) && is_expired(before.proposals()[k], now)
        && !passes(before.proposals()[k]) implies after.proposals()[k] == decided(before.proposals()[k])
            && after.proposals()[k].status == DaoProposalStatus::Failed by {
        assert(!ids.contains(k)) by {
            let exp = crate::dao::dao_engine::expired_in(before.proposals(), now);
            let pas = crate::dao::dao_engine::passes_in(before.proposals());
            if ids.contains(k) {
                let j = ids.index_of(k);
                before.proposal_order().filter(exp).lemma_filter_pred(pas, j);
            }
        }
        assert(d.contains_key(k));
    }
}

/// Counting an accepted vote adds one vote and the voter's power to the tally of
/// the vote's own choice and to nothing else: a yes vote raises only the yes
/// count and weight, a no vote only the no count and weight, an abstention or a
/// delegation only the abstain count and weight; the total grows by one. Every
/// citizen's vote weighs 1.
pub proof fn lemma_vote_counts_for_its_choice<H: Fn(&[u8]) -> [u8; 32]>(
    before: DaoEngine,
    after: DaoEngine,
    r: Result<[u8; 32], DaoError>,
    voter: IdentityId,
    proposal_id: [u8; 32],
    choice: DaoVoteChoice,
    justification: Option<String>,
    hasher: H,
    now: u64,
)
    requires
        DaoEngine::vote_cast(before, after, r, voter, proposal_id, choice, justification, hasher, now),
        r is Ok,
        before.has_room_for_vote(voter, proposal_id, choice),
    ensures
        ({
            let t0 = before.proposals()[proposal_id].vote_tally;
            let t1 = after.proposals()[proposal_id].vote_tally;
            let power = after.votes()[proposal_id].last().voting_power;
            &&& power == 1
            &&& t1.total_votes == t0.total_votes + 1
            &&& choice == DaoVoteChoice::Yes ==> {
                &&& t1.yes_votes == t0.yes_votes + 1 && t1.weighted_yes == t0.weighted_yes + power
                &&& t1.no_votes == t0.no_votes && t1.weighted_no == t0.weighted_no
                &&& t1.abstain_votes == t0.abstain_votes && t1.weighted_abstain == t0.weighted_abstain
            }
            &&& choice == DaoVoteChoice::No ==> {
                &&& t1.no_votes == t0.no_votes + 1 && t1.weighted_no == t0.weighted_no + power
                &&& t1.yes_votes == t0.yes_votes && t1.weighted_yes == t0.weighted_yes
                &&& t1.abstain_votes == t0.abstain_votes && t1.weighted_abstain == t0.weighted_abstain
            }
            &&& (choice == DaoVoteChoice::Abstain || choice is Delegate) ==> {
                &&& t1.abstain_votes == t0.abstain_votes + 1 && t1.weighted_abstain == t0.weighted_abstain + power
                &&& t1.yes_votes == t0.yes_votes && t1.weighted_yes == t0.weighted_yes
                &&& t1.no_votes == t0.no_votes && t1.weighted_no == t0.weighted_no
            }
        }),
{
}

/// An expired proposal passes exactly when it has more yes than no votes (a tie
/// fails) and its votes reach its quorum percent of the eligible power, rounded
/// down; with no eligible power only a zero quorum is reached.
pub proof fn lemma_passing_rule(p: DaoProposal)
    ensures
        passes(p) <==> p.vote_tally.yes_votes > p.vote_tally.no_votes && (if p.vote_tally.total_eligible_power == 0 {
            p.quorum_required == 0
        } else {
            (p.vote_tally.total_votes * 100) / (p.vote_tally.total_eligible_power as int) >= p.quorum_required
        }),
        p.vote_tally.yes_votes == p.vote_tally.no_votes ==> !passes(p),
        decided(p).status == (if passes(p) { DaoProposalStatus::Passed } else { DaoProposalStatus::Failed }),
{
}

/// The quorum and approval each proposal type needs: treasury spending 25% and
/// 60%, protocol upgrades 30% and 70%, UBI changes 20% and 50%, anything else 10%
/// and 50%.
pub proof fn lemma_requirements_by_type(t: crate::dao::dao_types::DaoProposalType)
    ensures
        t == crate::dao::dao_types::DaoProposalType::TreasuryAllocation ==> quorum_for(t) == 25 && approval_for(t) == 60,
        t == crate::dao::dao_types::DaoProposalType::ProtocolUpgrade ==> quorum_for(t) == 30 && approval_for(t) == 70,
        t == crate::dao::dao_types::DaoProposalType::UbiDistribution ==> quorum_for(t) == 20 && approval_for(t) == 50,
        t != crate::dao::dao_types::DaoProposalType::TreasuryAllocation
            && t != crate::dao::dao_types::DaoProposalType::ProtocolUpgrade
            && t != crate::dao::dao_types::DaoProposalType::UbiDistribution ==> quorum_for(t) == 10 && approval_for(t) == 50,
{
}

/// A proposal is executed only with votes, an approval of at least its type's
/// percent of them, participation of at least its quorum percent of the eligible
/// power, and, for treasury spending, 60% approval and enough available funds
/// for its amount.
pub proof fn lemma_execution_requirements(p: DaoProposal, available: u64)
    requires
        execution_error(p, available) is None,
    ensures
        p.vote_tally.total_votes > 0,
        p.vote_tally.yes_votes * 100 >= approval_for(p.proposal_type) * p.vote_tally.total_votes,
        p.vote_tally.total_votes * 100 >= p.quorum_required * p.vote_tally.total_eligible_power,
        p.vote_tally.total_eligible_power == 0 ==> p.quorum_required == 0,
        p.proposal_type == crate::dao::dao_types::DaoProposalType::TreasuryAllocation ==> {
            &&& p.vote_tally.yes_votes * 100 >= 60 * p.vote_tally.total_votes
            &&& available >= crate::dao::amount::treasury_amount(p.description@)
        },
{
}

} // verus!
