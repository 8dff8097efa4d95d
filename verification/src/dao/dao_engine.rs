//! DAO governance engine.
//!
//! Digests come from the `hasher` that the caller hands in; times come from the
//! caller (the `_at` functions) or from the system clock.

use crate::clock::{unix_time_now, unix_time_secs};
use crate::dao::amount::{treasury_amount, treasury_amount_of};
use crate::dao::dao_types::{
    empty_tally, DaoProposal, DaoProposalStatus, DaoProposalType, DaoTreasury, DaoVote,
    DaoVoteChoice, DaoVoteTally, IdentityId, TreasuryTransaction, TreasuryTransactionType,
};
use crate::dao::encoding::{
    allocation_id_layout, allocation_id_preimage, bootstrap_layout, bootstrap_preimage,
    proposal_id_layout, proposal_id_preimage, signature_from_digest, signature_of_digest,
    vote_id_layout, vote_id_preimage, vote_signature_layout, vote_signature_preimage,
};
use crate::id_map::IdMap;
use vstd::prelude::*;

verus! {

/// Why the DAO engine refused a request.
#[derive(Debug, Clone, Copy, PartialEq, Eq, Structural)]
pub enum DaoError {
    /// Treasury proposals need more voting power than the proposer has
    InsufficientVotingPower { required: u64, actual: u64 },
    /// The treasury holds too little to accept spending proposals
    InsufficientTreasuryFunds { available: u64 },
    /// No proposal has the given id
    ProposalNotFound,
    /// The proposal does not accept votes
    ProposalNotActive,
    /// The voting period of the proposal has ended
    VotingPeriodEnded,
    /// The voter has already voted on the proposal
    AlreadyVoted,
    /// The voter has no voting power
    NoVotingPower,
    /// The approval is below what the proposal type requires (percent)
    InsufficientApproval { yes_votes: u64, total_votes: u64, required_percent: u64 },
    /// The participation is below the proposal's quorum (percent)
    InsufficientQuorum { total_votes: u64, eligible_power: u64, quorum_percent: u8 },
    /// Treasury funds require 60% approval
    TreasuryApprovalTooLow { yes_votes: u64, total_votes: u64 },
    /// The treasury holds less than the allocation asks for
    TreasuryFundsShort { available: u64, requested: u64 },
    /// The system clock reads a time before the Unix epoch
    ClockBeforeEpoch,
    /// The end of the voting period does not fit in 64 bits
    VotingEndOverflow,
}

/// `hasher` may be called on any bytes.
pub open spec fn total_hasher<H: Fn(&[u8]) -> [u8; 32]>(hasher: H) -> bool {
    forall|b: &[u8]| #[trigger] hasher.requires((b,))
}

/// `d` is a digest that `hasher` returned for `bytes`.
pub open spec fn hashed_by<H: Fn(&[u8]) -> [u8; 32]>(hasher: H, bytes: Seq<u8>, d: [u8; 32]) -> bool {
    exists|b: &[u8]| #[trigger] hasher.ensures((b,), d) && b@ == bytes
}

/// Digest of `bytes` by `hasher`.
fn digest<H: Fn(&[u8]) -> [u8; 32]>(hasher: &H, bytes: &Vec<u8>) -> (d: [u8; 32])
    requires
        total_hasher(*hasher),
    ensures
        hashed_by(*hasher, bytes@, d),
{
    let b = bytes.as_slice();
    let d = hasher(b);
    assert(hasher.ensures((b,), d) && b@ == bytes@);
    d
}

/// Voting power of every citizen.
pub open spec fn citizen_power() -> u64 {
    1
}

/// Voting power needed to propose treasury spending.
pub open spec fn treasury_proposal_power() -> u64 {
    100
}

/// Available treasury balance needed to accept spending proposals.
pub open spec fn treasury_proposal_funds() -> u64 {
    1000
}

/// Quorum (percent) that a proposal of type `t` requires.
pub open spec fn quorum_for(t: DaoProposalType) -> u8 {
    match t {
        DaoProposalType::TreasuryAllocation => 25,
        DaoProposalType::ProtocolUpgrade => 30,
        DaoProposalType::UbiDistribution => 20,
        _ => 10,
    }
}

/// Approval (percent) that a proposal of type `t` requires to be executed.
pub open spec fn approval_for(t: DaoProposalType) -> u64 {
    match t {
        DaoProposalType::TreasuryAllocation => 60,
        DaoProposalType::ProtocolUpgrade => 70,
        _ => 50,
    }
}

/// Unix time of the genesis block (Jan 1, 2023).
pub open spec fn genesis_timestamp() -> u64 {
    1672531200
}

/// Block height at `now`, with 6-second blocks since genesis.
pub open spec fn block_height_at(now: u64) -> u64 {
    (if now >= genesis_timestamp() { now - genesis_timestamp() } else { 0 }) as u64 / 6
}

/// Eligible voting power estimated from the number of voters seen: each voter
/// stands for a tenth of the population, 1000 when no one voted, at least 100.
pub open spec fn eligible_power_of(voters: nat) -> nat {
    let estimate = if voters > 0 { voters * 10 } else { 1000 };
    if estimate >= 100 { estimate } else { 100 }
}

/// Sum of the sizes of the voter maps `s`.
pub open spec fn voters_in(s: Seq<IdMap<[u8; 32]>>) -> nat
    decreases s.len(),
{
    if s.len() == 0 {
        0
    } else {
        voters_in(s.drop_last()) + s.last()@.len()
    }
}

/// The tally after one more vote of `choice` with `power`: abstentions and
/// delegations count as abstentions.
pub open spec fn tallied(t: DaoVoteTally, choice: DaoVoteChoice, power: u64) -> DaoVoteTally {
    let t1 = match choice {
        DaoVoteChoice::Yes => DaoVoteTally {
            yes_votes: (t.yes_votes + 1) as u64,
            weighted_yes: (t.weighted_yes + power) as u64,
            ..t
        },
        DaoVoteChoice::No => DaoVoteTally {
            no_votes: (t.no_votes + 1) as u64,
            weighted_no: (t.weighted_no + power) as u64,
            ..t
        },
        _ => DaoVoteTally {
            abstain_votes: (t.abstain_votes + 1) as u64,
            weighted_abstain: (t.weighted_abstain + power) as u64,
            ..t
        },
    };
    DaoVoteTally { total_votes: (t.total_votes + 1) as u64, ..t1 }
}

/// Sum of the lengths of the vote lists `s`.
pub open spec fn records_in(s: Seq<Vec<DaoVote>>) -> nat
    decreases s.len(),
{
    if s.len() == 0 {
        0
    } else {
        records_in(s.drop_last()) + s.last()@.len()
    }
}

proof fn lemma_voters_in_prefix(s: Seq<IdMap<[u8; 32]>>, i: int)
    requires
        0 <= i <= s.len(),
    ensures
        voters_in(s.take(i)) <= voters_in(s),
    decreases s.len() - i,
{
    if i < s.len() {
        lemma_voters_in_prefix(s, i + 1);
        assert(s.take(i + 1).drop_last() =~= s.take(i));
    } else {
        assert(s.take(i) =~= s);
    }
}

proof fn lemma_voters_in_update(s: Seq<IdMap<[u8; 32]>>, i: int, x: IdMap<[u8; 32]>)
    requires
        0 <= i < s.len(),
    ensures
        voters_in(s.update(i, x)) + s[i]@.len() == voters_in(s) + x@.len(),
    decreases s.len(),
{
    let t = s.update(i, x);
    if i == s.len() - 1 {
        assert(t.drop_last() =~= s.drop_last());
    } else {
        lemma_voters_in_update(s.drop_last(), i, x);
        assert(t.drop_last() =~= s.drop_last().update(i, x));
    }
}

proof fn lemma_records_in_prefix(s: Seq<Vec<DaoVote>>, i: int)
    requires
        0 <= i <= s.len(),
    ensures
        records_in(s.take(i)) <= records_in(s),
    decreases s.len() - i,
{
    if i < s.len() {
        lemma_records_in_prefix(s, i + 1);
        assert(s.take(i + 1).drop_last() =~= s.take(i));
    } else {
        assert(s.take(i) =~= s);
    }
}

/// The treasury that the blockchain history implies for `proposals` proposals and
/// `vote_records` cast votes: an initial 250000 plus 100 per estimated
/// transaction, 45000 of it held back for 30 days of UBI, 60000 reserved.
pub open spec fn treasury_counts_hold(t: DaoTreasury, proposals: nat, vote_records: nat) -> bool {
    let total = (proposals * 5 + vote_records) * 100 + 250000;
    &&& t.total_balance == total
    &&& t.available_balance == (if total >= 45000 { total - 45000 } else { 0 })
    &&& t.allocated_funds == 0
    &&& t.reserved_funds == 60000
    &&& t.annual_budgets@ == Seq::<crate::dao::dao_types::AnnualBudget>::empty()
}

/// `tx` is the bootstrap deposit of 250000 made at `now`, identified by a digest of
/// `bootstrap` by `hasher`.
pub open spec fn is_bootstrap_deposit<H: Fn(&[u8]) -> [u8; 32]>(tx: TreasuryTransaction, hasher: H, now: u64) -> bool {
    &&& hashed_by(hasher, bootstrap_layout(), tx.id)
    &&& tx.transaction_type == TreasuryTransactionType::Deposit
    &&& tx.amount == 250000
    &&& tx.recipient is None
    &&& tx.source is None
    &&& tx.proposal_id is None
    &&& tx.timestamp == now
    &&& tx.description@ == "Initial treasury bootstrap funding"@
}

/// A new active proposal of type `proposal_type` created at `now`, whose vote
/// lasts `days` days.
pub open spec fn new_proposal(
    id: [u8; 32],
    title: String,
    description: String,
    proposer: IdentityId,
    proposal_type: DaoProposalType,
    now: u64,
    days: u32,
) -> DaoProposal {
    DaoProposal {
        id,
        title,
        description,
        proposer,
        proposal_type,
        status: DaoProposalStatus::Active,
        voting_start_time: now,
        voting_end_time: (now + days * 86400) as u64,
        quorum_required: quorum_for(proposal_type),
        vote_tally: empty_tally(),
        created_at: now,
        created_at_height: block_height_at(now),
        execution_params: None,
    }
}

/// Why a proposal of type `proposal_type` is refused with `available` in the
/// treasury: spending proposals need 100 voting power (a citizen has 1) and a
/// treasury of at least 1000.
pub open spec fn proposal_refusal(proposal_type: DaoProposalType, available: u64) -> Option<DaoError> {
    if proposal_type == DaoProposalType::TreasuryAllocation {
        if citizen_power() < treasury_proposal_power() {
            Some(DaoError::InsufficientVotingPower { required: treasury_proposal_power(), actual: citizen_power() })
        } else if available < treasury_proposal_funds() {
            Some(DaoError::InsufficientTreasuryFunds { available })
        } else {
            None
        }
    } else {
        None
    }
}

/// The map `m` with `f` applied to its values, after inserting `v` at `k`, is the
/// mapped map with `f(v)` at `k`.
pub proof fn lemma_insert_map_values<K, A, B>(m: Map<K, A>, k: K, v: A, f: spec_fn(A) -> B)
    ensures
        m.insert(k, v).map_values(f) == m.map_values(f).insert(k, f(v)),
{
    assert(m.insert(k, v).map_values(f) =~= m.map_values(f).insert(k, f(v)));
}

/// Proposal `p` is active and its voting period ended before `now`.
pub open spec fn is_expired(p: DaoProposal, now: u64) -> bool {
    p.status == DaoProposalStatus::Active && now > p.voting_end_time
}

/// The votes reached the quorum `q` (percent, rounded down) of the eligible
/// power; with no eligible power (no one voted) only a zero quorum is met.
pub open spec fn quorum_met(t: DaoVoteTally, q: u8) -> bool {
    if t.total_eligible_power == 0 {
        q == 0
    } else {
        (t.total_votes * 100) / (t.total_eligible_power as int) >= q
    }
}

/// An expired proposal passes when it met its quorum and has more yes than no votes.
pub open spec fn passes(p: DaoProposal) -> bool {
    quorum_met(p.vote_tally, p.quorum_required) && p.vote_tally.yes_votes > p.vote_tally.no_votes
}

/// `p` once its vote is over: passed or failed.
pub open spec fn decided(p: DaoProposal) -> DaoProposal {
    DaoProposal {
        status: if passes(p) { DaoProposalStatus::Passed } else { DaoProposalStatus::Failed },
        ..p
    }
}

/// The proposals with every expired one decided.
pub open spec fn decide_expired(props: Map<[u8; 32], DaoProposal>, now: u64) -> Map<[u8; 32], DaoProposal> {
    props.map_values(|p: DaoProposal| if is_expired(p, now) { decided(p) } else { p })
}

/// Whether the proposal with id `k` among `props` has expired at `now`.
pub open spec fn expired_in(props: Map<[u8; 32], DaoProposal>, now: u64) -> spec_fn([u8; 32]) -> bool {
    |k: [u8; 32]| is_expired(props[k], now)
}

/// Whether the proposal with id `k` among `props` passes.
pub open spec fn passes_in(props: Map<[u8; 32], DaoProposal>) -> spec_fn([u8; 32]) -> bool {
    |k: [u8; 32]| passes(props[k])
}

/// The ids, in `order`, of the proposals that expired at `now` and pass.
pub open spec fn passed_ids(order: Seq<[u8; 32]>, props: Map<[u8; 32], DaoProposal>, now: u64) -> Seq<[u8; 32]> {
    order.filter(expired_in(props, now)).filter(passes_in(props))
}

/// The approval of `t` is below `percent`: no votes, or fewer yes votes than
/// `percent` of all votes.
pub open spec fn approval_below(t: DaoVoteTally, percent: u64) -> bool {
    t.total_votes == 0 || t.yes_votes * 100 < percent * t.total_votes
}

/// The participation of `t` is below the quorum `q` of the eligible power.
pub open spec fn quorum_below(t: DaoVoteTally, q: u8) -> bool {
    if t.total_eligible_power == 0 {
        0 < q
    } else {
        t.total_votes * 100 < q * t.total_eligible_power
    }
}

/// Why the passed proposal `p` cannot be executed with `available` in the
/// treasury, if it can't: too little approval for its type, too little
/// participation, or (for treasury spending) less than 60% approval or less
/// available than its amount.
pub open spec fn execution_error(p: DaoProposal, available: u64) -> Option<DaoError> {
    let t = p.vote_tally;
    if approval_below(t, approval_for(p.proposal_type)) {
        Some(DaoError::InsufficientApproval {
            yes_votes: t.yes_votes,
            total_votes: t.total_votes,
            required_percent: approval_for(p.proposal_type),
        })
    } else if quorum_below(t, p.quorum_required) {
        Some(DaoError::InsufficientQuorum {
            total_votes: t.total_votes,
            eligible_power: t.total_eligible_power,
            quorum_percent: p.quorum_required,
        })
    } else if p.proposal_type == DaoProposalType::TreasuryAllocation && approval_below(t, 60) {
        Some(DaoError::TreasuryApprovalTooLow { yes_votes: t.yes_votes, total_votes: t.total_votes })
    } else if p.proposal_type == DaoProposalType::TreasuryAllocation && available < treasury_amount(p.description@) {
        Some(DaoError::TreasuryFundsShort { available, requested: treasury_amount(p.description@) })
    } else {
        None
    }
}

/// Executing the proposals `ids` in order, from `props` and a treasury with
/// `available` and `allocated`, stopping at the first that cannot be executed:
/// the proposals, available and allocated funds after, the (proposal, amount)
/// allocations made, and the error that stopped it, if any.
pub open spec fn executed(
    props: Map<[u8; 32], DaoProposal>,
    available: u64,
    allocated: u64,
    ids: Seq<[u8; 32]>,
) -> (Map<[u8; 32], DaoProposal>, u64, u64, Seq<([u8; 32], u64)>, Option<DaoError>)
    decreases ids.len(),
{
    if ids.len() == 0 {
        (props, available, allocated, Seq::empty(), None)
    } else if !props.contains_key(ids[0]) {
        (props, available, allocated, Seq::empty(), Some(DaoError::ProposalNotFound))
    } else {
        let id = ids[0];
        let p = props[id];
        match execution_error(p, available) {
            Some(e) => (props, available, allocated, Seq::empty(), Some(e)),
            None => {
                let spend = p.proposal_type == DaoProposalType::TreasuryAllocation;
                let amount = treasury_amount(p.description@);
                let rest = executed(
                    props.insert(id, DaoProposal { status: DaoProposalStatus::Executed, ..p }),
                    if spend { (available - amount) as u64 } else { available },
                    if spend { (allocated + amount) as u64 } else { allocated },
                    ids.drop_first(),
                );
                (rest.0, rest.1, rest.2, if spend { seq![(id, amount)] + rest.3 } else { rest.3 }, rest.4)
            },
        }
    }
}

/// `tx` records the allocation of `amount` to proposal `proposal_id` titled
/// `title` at `now`, identified by a digest by `hasher` of proposal and amount.
pub open spec fn is_allocation_record<H: Fn(&[u8]) -> [u8; 32]>(
    tx: TreasuryTransaction,
    proposal_id: [u8; 32],
    amount: u64,
    title: Seq<char>,
    hasher: H,
    now: u64,
) -> bool {
    &&& hashed_by(hasher, allocation_id_layout(proposal_id, amount), tx.id)
    &&& tx.transaction_type == TreasuryTransactionType::Allocation
    &&& tx.amount == amount
    &&& tx.recipient is None
    &&& tx.source is None
    &&& tx.proposal_id == Some(proposal_id)
    &&& tx.timestamp == now
    &&& tx.description@ == title
}

/// One execution step and the rest: executing `ids` is executing the first id and
/// then, unless that failed, the others from where it left off.
proof fn lemma_executed_step(props: Map<[u8; 32], DaoProposal>, available: u64, allocated: u64, ids: Seq<[u8; 32]>)
    requires
        ids.len() > 0,
    ensures
        ({
            let one = executed(props, available, allocated, seq![ids[0]]);
            let all = executed(props, available, allocated, ids);
            let rest = executed(one.0, one.1, one.2, ids.drop_first());
            &&& one.4 is Some ==> all == one && one.3 == Seq::<([u8; 32], u64)>::empty()
            &&& one.4 is None ==> all == (rest.0, rest.1, rest.2, one.3 + rest.3, rest.4)
        }),
{
    reveal_with_fuel(executed, 2);
    assert(seq![ids[0]].drop_first() =~= Seq::<[u8; 32]>::empty());
    assert(seq![ids[0]][0] == ids[0]);
    let one = executed(props, available, allocated, seq![ids[0]]);
    let rest = executed(one.0, one.1, one.2, ids.drop_first());
    if one.4 is None {
        let all = executed(props, available, allocated, ids);
        if props[ids[0]].proposal_type == DaoProposalType::TreasuryAllocation {
            assert(one.3 + rest.3 =~= seq![(ids[0], treasury_amount(props[ids[0]].description@))] + rest.3);
        } else {
            assert(one.3 + rest.3 =~= rest.3);
        }
    }
}

/// All the votes of the lists `ls`, list after list.
pub open spec fn flatten_votes(ls: Seq<Seq<DaoVote>>) -> Seq<DaoVote>
    decreases ls.len(),
{
    if ls.len() == 0 {
        Seq::empty()
    } else {
        flatten_votes(ls.drop_last()) + ls.last()
    }
}

/// Whether a vote was cast by `user`.
pub open spec fn cast_by(user: [u8; 32]) -> spec_fn(DaoVote) -> bool {
    |v: DaoVote| v.voter == user
}

/// DAO governance engine.
#[derive(Debug, Clone)]
pub struct DaoEngine {
    /// Active DAO proposals
    dao_proposals: IdMap<DaoProposal>,
    /// DAO vote records
    dao_votes: IdMap<Vec<DaoVote>>,
    /// DAO treasury state
    dao_treasury: DaoTreasury,
    /// Vote tracking (proposal_id -> voter_id -> vote_id)
    vote_tracking: IdMap<IdMap<[u8; 32]>>,
}

impl DaoEngine {
    /// The proposals, by id.
    pub closed spec fn proposals(&self) -> Map<[u8; 32], DaoProposal> {
        self.dao_proposals@
    }

    /// The proposal ids in the order the proposals were first stored.
    pub closed spec fn proposal_order(&self) -> Seq<[u8; 32]> {
        self.dao_proposals.key_seq()
    }

    /// The vote records of each proposal, in casting order.
    pub closed spec fn votes(&self) -> Map<[u8; 32], Seq<DaoVote>> {
        self.dao_votes@.map_values(|v: Vec<DaoVote>| v@)
    }

    /// The vote lists in the order their proposals were first stored.
    pub closed spec fn vote_lists(&self) -> Seq<Seq<DaoVote>> {
        self.dao_votes.val_seq().map_values(|v: Vec<DaoVote>| v@)
    }

    /// For each proposal, the voters that voted on it and their vote ids.
    pub closed spec fn voters(&self) -> Map<[u8; 32], Map<[u8; 32], [u8; 32]>> {
        self.vote_tracking@.map_values(|m: IdMap<[u8; 32]>| m@)
    }

    /// Number of (proposal, voter) pairs that voted.
    pub closed spec fn voter_count(&self) -> nat {
        voters_in(self.vote_tracking.val_seq())
    }

    /// The treasury.
    pub closed spec fn treasury(&self) -> DaoTreasury {
        self.dao_treasury
    }

    /// `after` is `before` once `proposer` asked for a proposal at `now` (seconds)
    /// and `nanos` (nanoseconds) since the Unix epoch, with result `r`: a refused
    /// proposal changes nothing; an accepted one is stored, active, under the
    /// digest of its proposer, title, description and creation time, with no votes.
    pub open spec fn proposal_created<H: Fn(&[u8]) -> [u8; 32]>(
        before: Self,
        after: Self,
        r: Result<[u8; 32], DaoError>,
        proposer: IdentityId,
        title: String,
        description: String,
        proposal_type: DaoProposalType,
        days: u32,
        hasher: H,
        now: u64,
        nanos: u128,
    ) -> bool {
        match proposal_refusal(proposal_type, before.treasury().available_balance) {
            Some(e) => r == Err::<[u8; 32], DaoError>(e) && after == before,
            None => {
                &&& r is Ok
                &&& hashed_by(hasher, proposal_id_layout(proposer, title@, description@, nanos), r->Ok_0)
                &&& after.proposals() == before.proposals().insert(
                    r->Ok_0,
                    new_proposal(r->Ok_0, title, description, proposer, proposal_type, now, days),
                )
                &&& after.proposal_order() == (if before.proposals().contains_key(r->Ok_0) {
                    before.proposal_order()
                } else {
                    before.proposal_order().push(r->Ok_0)
                })
                &&& after.votes() == before.votes().insert(r->Ok_0, Seq::<DaoVote>::empty())
                &&& after.voters() == before.voters()
                &&& after.voter_count() == before.voter_count()
                &&& after.treasury() == before.treasury()
            },
        }
    }

    /// `after` is `before` once `proposer` asked for a proposal whose vote lasts
    /// `days` days and the clock read `now` seconds and `nanos` nanoseconds since
    /// the Unix epoch, with result `r`: a proposal that is not refused but whose
    /// voting period would end past the 64-bit range of seconds is refused with
    /// `VotingEndOverflow` and changes nothing; otherwise as `proposal_created`.
    pub open spec fn proposal_made_at<H: Fn(&[u8]) -> [u8; 32]>(
        before: Self,
        after: Self,
        r: Result<[u8; 32], DaoError>,
        proposer: IdentityId,
        title: String,
        description: String,
        proposal_type: DaoProposalType,
        days: u32,
        hasher: H,
        now: u64,
        nanos: u128,
    ) -> bool {
        if proposal_refusal(proposal_type, before.treasury().available_balance) is None
            && now + days * 86400 > u64::MAX {
            r == Err::<[u8; 32], DaoError>(DaoError::VotingEndOverflow) && after == before
        } else {
            Self::proposal_created(before, after, r, proposer, title, description, proposal_type, days, hasher, now, nanos)
        }
    }

    /// The refusal of a vote of `voter` on proposal `proposal_id` at `now`, if any.
    pub open spec fn vote_refusal(&self, voter: IdentityId, proposal_id: [u8; 32], now: u64) -> Option<DaoError> {
        let props = self.proposals();
        if !props.contains_key(proposal_id) {
            Some(DaoError::ProposalNotFound)
        } else if props[proposal_id].status != DaoProposalStatus::Active {
            Some(DaoError::ProposalNotActive)
        } else if now > props[proposal_id].voting_end_time {
            Some(DaoError::VotingPeriodEnded)
        } else if self.voters().contains_key(proposal_id) && self.voters()[proposal_id].contains_key(voter) {
            Some(DaoError::AlreadyVoted)
        } else if citizen_power() == 0 {
            Some(DaoError::NoVotingPower)
        } else {
            None
        }
    }

    /// `v` is the record of a vote `vote_id` of `voter` on `proposal_id` with
    /// `choice` at `now`, signed with a digest by `hasher` of the voter, proposal
    /// and choice.
    pub open spec fn is_vote_record<H: Fn(&[u8]) -> [u8; 32]>(
        v: DaoVote,
        vote_id: [u8; 32],
        voter: IdentityId,
        proposal_id: [u8; 32],
        choice: DaoVoteChoice,
        justification: Option<String>,
        hasher: H,
        now: u64,
    ) -> bool {
        &&& v.id == vote_id
        &&& v.proposal_id == proposal_id
        &&& v.voter == voter
        &&& v.vote_choice == choice
        &&& v.voting_power == citizen_power()
        &&& v.timestamp == now
        &&& v.justification == justification
        &&& exists|d: [u8; 32]| #[trigger] hashed_by(hasher, vote_signature_layout(voter, proposal_id, choice), d)
            && signature_of_digest(v.signature, d, now)
    }

    /// `after` is `before` once `voter` voted `choice` on `proposal_id` at `now`,
    /// with result `r`: a refused vote changes nothing; an accepted one is
    /// recorded under the digest of proposal, voter, choice and time, the voter is
    /// tracked, and the proposal's tally counts the vote and the new eligible power.
    pub open spec fn vote_cast<H: Fn(&[u8]) -> [u8; 32]>(
        before: Self,
        after: Self,
        r: Result<[u8; 32], DaoError>,
        voter: IdentityId,
        proposal_id: [u8; 32],
        choice: DaoVoteChoice,
        justification: Option<String>,
        hasher: H,
        now: u64,
    ) -> bool {
        match before.vote_refusal(voter, proposal_id, now) {
            Some(e) => r == Err::<[u8; 32], DaoError>(e) && after == before,
            None => {
                let vote_id = r->Ok_0;
                let prior_votes = if before.votes().contains_key(proposal_id) {
                    before.votes()[proposal_id]
                } else {
                    Seq::<DaoVote>::empty()
                };
                let prior_voters = if before.voters().contains_key(proposal_id) {
                    before.voters()[proposal_id]
                } else {
                    Map::<[u8; 32], [u8; 32]>::empty()
                };
                let p = before.proposals()[proposal_id];
                &&& r is Ok
                &&& hashed_by(hasher, vote_id_layout(proposal_id, voter, choice, now), vote_id)
                &&& after.votes().contains_key(proposal_id)
                &&& after.votes() == before.votes().insert(proposal_id, prior_votes.push(after.votes()[proposal_id].last()))
                &&& Self::is_vote_record(after.votes()[proposal_id].last(), vote_id, voter, proposal_id, choice,
                    justification, hasher, now)
                &&& after.voters() == before.voters().insert(proposal_id, prior_voters.insert(voter, vote_id))
                &&& after.voter_count() == before.voter_count() + 1
                &&& after.proposals() == before.proposals().insert(proposal_id, DaoProposal {
                    vote_tally: DaoVoteTally {
                        total_eligible_power: eligible_power_of(after.voter_count()) as u64,
                        ..tallied(p.vote_tally, choice, citizen_power())
                    },
                    ..p
                })
                &&& after.proposal_order() == before.proposal_order()
                &&& after.treasury() == before.treasury()
            },
        }
    }

    /// `proposal_id` is an active proposal on which `voter` has not voted: a vote
    /// of theirs on it is accepted unless its voting period has ended.
    pub open spec fn vote_open_to(&self, voter: IdentityId, proposal_id: [u8; 32]) -> bool {
        &&& self.proposals().contains_key(proposal_id)
        &&& self.proposals()[proposal_id].status == DaoProposalStatus::Active
        &&& !(self.voters().contains_key(proposal_id) && self.voters()[proposal_id].contains_key(voter))
    }

    /// Where a vote of `voter` on `proposal_id` with `choice` can be accepted, the
    /// counts it increments have room for it: the tally's total and the count and
    /// weight of its choice, and the voter count in the eligible-power estimate.
    pub open spec fn has_room_for_vote(&self, voter: IdentityId, proposal_id: [u8; 32], choice: DaoVoteChoice) -> bool {
        self.vote_open_to(voter, proposal_id) ==> {
            let t = self.proposals()[proposal_id].vote_tally;
            &&& t.total_votes < u64::MAX
            &&& match choice {
                DaoVoteChoice::Yes => t.yes_votes < u64::MAX && t.weighted_yes + citizen_power() <= u64::MAX,
                DaoVoteChoice::No => t.no_votes < u64::MAX && t.weighted_no + citizen_power() <= u64::MAX,
                _ => t.abstain_votes < u64::MAX && t.weighted_abstain + citizen_power() <= u64::MAX,
            }
            &&& (self.voter_count() + 1) * 10 <= u64::MAX
        }
    }

    /// Allocations cannot overflow the allocated funds: the available and the
    /// allocated funds together fit in 64 bits.
    pub open spec fn can_process_expired(&self) -> bool {
        self.treasury().allocated_funds + self.treasury().available_balance <= u64::MAX
    }

    /// `after` is `before` once the proposals expired at `now` were processed,
    /// with result `r`: each is decided (passed or failed), then the passed ones
    /// are executed in the order they were stored until one cannot be, whose error
    /// is the result; each treasury allocation is recorded.
    pub open spec fn expired_processed<H: Fn(&[u8]) -> [u8; 32]>(
        before: Self,
        after: Self,
        r: Result<(), DaoError>,
        hasher: H,
        now: u64,
    ) -> bool {
        let ids = passed_ids(before.proposal_order(), before.proposals(), now);
        let out = executed(decide_expired(before.proposals(), now), before.treasury().available_balance,
            before.treasury().allocated_funds, ids);
        let h0 = before.treasury().transaction_history@;
        let h1 = after.treasury().transaction_history@;
        &&& r == (match out.4 { Some(e) => Err(e), None => Ok::<(), DaoError>(()) })
        &&& after.proposals() == out.0
        &&& after.proposal_order() == before.proposal_order()
        &&& after.votes() == before.votes()
        &&& after.voters() == before.voters()
        &&& after.voter_count() == before.voter_count()
        &&& after.treasury().available_balance == out.1
        &&& after.treasury().allocated_funds == out.2
        &&& after.treasury().total_balance == before.treasury().total_balance
        &&& after.treasury().reserved_funds == before.treasury().reserved_funds
        &&& after.treasury().annual_budgets == before.treasury().annual_budgets
        &&& h1.len() == h0.len() + out.3.len()
        &&& h1.take(h0.len() as int) == h0
        &&& forall|i: int| 0 <= i < out.3.len() ==> is_allocation_record(#[trigger] h1[h0.len() + i], out.3[i].0,
            out.3[i].1, before.proposals()[out.3[i].0].title@, hasher, now)
    }

    /// Creates the engine with the treasury that the (empty) history implies, at
    /// `now` (seconds since the Unix epoch).
    pub fn new_at<H: Fn(&[u8]) -> [u8; 32]>(hasher: &H, now: u64) -> (r: Self)
        requires
            total_hasher(*hasher),
        ensures
            r.proposals() == Map::<[u8; 32], DaoProposal>::empty(),
            r.proposal_order() == Seq::<[u8; 32]>::empty(),
            r.votes() == Map::<[u8; 32], Seq<DaoVote>>::empty(),
            r.voters() == Map::<[u8; 32], Map<[u8; 32], [u8; 32]>>::empty(),
            r.voter_count() == 0,
            treasury_counts_hold(r.treasury(), 0, 0),
            r.treasury().transaction_history@.len() == 1,
            is_bootstrap_deposit(r.treasury().transaction_history@[0], *hasher, now),
    {
        let mut engine = DaoEngine {
            dao_proposals: IdMap::new(),
            dao_votes: IdMap::new(),
            dao_treasury: DaoTreasury {
                total_balance: 0,
                available_balance: 0,
                allocated_funds: 0,
                reserved_funds: 0,
                transaction_history: Vec::new(),
                annual_budgets: Vec::new(),
            },
            vote_tracking: IdMap::new(),
        };
        proof {
            assert(engine.votes() =~= Map::<[u8; 32], Seq<DaoVote>>::empty());
            assert(engine.voters() =~= Map::<[u8; 32], Map<[u8; 32], [u8; 32]>>::empty());
            assert(engine.dao_votes.val_seq() =~= Seq::<Vec<DaoVote>>::empty());
        }
        engine.load_treasury_from_blockchain(hasher, now);
        engine
    }

    /// Creates the engine, reading the system clock.
    pub fn new<H: Fn(&[u8]) -> [u8; 32]>(hasher: &H) -> (r: Self)
        requires
            total_hasher(*hasher),
        ensures
            r.proposals() == Map::<[u8; 32], DaoProposal>::empty(),
            r.proposal_order() == Seq::<[u8; 32]>::empty(),
            r.votes() == Map::<[u8; 32], Seq<DaoVote>>::empty(),
            r.voters() == Map::<[u8; 32], Map<[u8; 32], [u8; 32]>>::empty(),
            r.voter_count() == 0,
            treasury_counts_hold(r.treasury(), 0, 0),
            r.treasury().transaction_history@.len() == 1,
            is_bootstrap_deposit(r.treasury().transaction_history@[0], *hasher, r.treasury().transaction_history@[0].timestamp),
    {
        Self::new_at(hasher, unix_time_secs())
    }

    /// Sets the treasury to what the stored proposals and votes imply, with the
    /// bootstrap deposit made at `now`.
    fn load_treasury_from_blockchain<H: Fn(&[u8]) -> [u8; 32]>(&mut self, hasher: &H, now: u64)
        requires
            total_hasher(*hasher),
            (old(self).proposals().len() * 5 + records_in(old(self).dao_votes.val_seq())) * 100 + 250000 <= u64::MAX,
        ensures
            final(self).dao_proposals == old(self).dao_proposals,
            final(self).dao_votes == old(self).dao_votes,
            final(self).vote_tracking == old(self).vote_tracking,
            treasury_counts_hold(final(self).dao_treasury, old(self).proposals().len(), records_in(old(self).dao_votes.val_seq())),
            final(self).dao_treasury.transaction_history@.len() == 1,
            is_bootstrap_deposit(final(self).dao_treasury.transaction_history@[0], *hasher, now),
    {
        let ghost lists = self.dao_votes.val_seq();
        let total_dao_proposals = self.dao_proposals.len() as u64;
        let n = self.dao_votes.len();
        let mut total_votes_cast: u64 = 0;
        let mut i: usize = 0;
        while i < n
            invariant
                n == lists.len(),
                lists == self.dao_votes.val_seq(),
                self.dao_votes.well_keyed(),
                n == self.dao_votes.key_seq().len(),
                i <= n,
                total_votes_cast == records_in(lists.take(i as int)),
                records_in(lists) <= u64::MAX,
            decreases n - i,
        {
            proof {
                lemma_records_in_prefix(lists, i + 1);
                assert(lists.take(i + 1).drop_last() =~= lists.take(i as int));
            }
            total_votes_cast = total_votes_cast + self.dao_votes.value_at(i).len() as u64;
            i = i + 1;
        }
        proof {
            assert(lists.take(n as int) =~= lists);
        }
        let estimated_transactions = total_dao_proposals * 5 + total_votes_cast;
        let average_fee_per_tx = 100u64;
        let collected_fees = estimated_transactions * average_fee_per_tx;
        let bootstrap_allocation = 250_000u64;
        let actual_treasury_balance = collected_fees + bootstrap_allocation;
        let daily_ubi_cost = 1_500u64;
        let monthly_validator_rewards = 5_000u64;
        let bootstrap_id = digest(hasher, &bootstrap_preimage());
        let mut history: Vec<TreasuryTransaction> = Vec::new();
        history.push(TreasuryTransaction {
            id: bootstrap_id,
            transaction_type: TreasuryTransactionType::Deposit,
            amount: bootstrap_allocation,
            recipient: None,
            source: None,
            proposal_id: None,
            timestamp: now,
            description: "Initial treasury bootstrap funding".to_string(),
        });
        self.dao_treasury = DaoTreasury {
            total_balance: actual_treasury_balance,
            available_balance: actual_treasury_balance.saturating_sub(daily_ubi_cost * 30),
            allocated_funds: 0,
            reserved_funds: daily_ubi_cost * 30 + monthly_validator_rewards * 3,
            transaction_history: history,
            annual_budgets: Vec::new(),
        };
    }

    /// DAO voting power of `user_id`: every citizen has 1.
    pub fn get_dao_voting_power(&self, user_id: &IdentityId) -> (r: u64)
        ensures
            r == citizen_power(),
    {
        let base_power = 1u64;
        base_power
    }

    /// Block height at `now` (seconds since the Unix epoch), with 6-second blocks since genesis.
    fn get_current_block_height_at(&self, now: u64) -> (r: u64)
        ensures
            r == block_height_at(now),
    {
        let genesis_timestamp = 1672531200u64;
        let seconds_elapsed = now.saturating_sub(genesis_timestamp);
        seconds_elapsed / 6
    }

    /// Eligible voting power, estimated from the voters seen so far.
    pub fn calculate_total_eligible_power(&self) -> (r: u64)
        requires
            self.voter_count() * 10 <= u64::MAX,
        ensures
            r == eligible_power_of(self.voter_count()),
    {
        let ghost maps = self.vote_tracking.val_seq();
        let n = self.vote_tracking.len();
        let mut active_voters: u64 = 0;
        let mut i: usize = 0;
        while i < n
            invariant
                n == maps.len(),
                maps == self.vote_tracking.val_seq(),
                self.vote_tracking.well_keyed(),
                n == self.vote_tracking.key_seq().len(),
                i <= n,
                active_voters == voters_in(maps.take(i as int)),
                voters_in(maps) * 10 <= u64::MAX,
            decreases n - i,
        {
            proof {
                lemma_voters_in_prefix(maps, i + 1);
                assert(maps.take(i + 1).drop_last() =~= maps.take(i as int));
            }
            active_voters = active_voters + self.vote_tracking.value_at(i).len() as u64;
            i = i + 1;
        }
        proof {
            assert(maps.take(n as int) =~= maps);
        }
        let estimated_total = if active_voters > 0 { active_voters * 10 } else { 1000 };
        if estimated_total >= 100 { estimated_total } else { 100 }
    }

    /// Whether a vote of `voter` on `proposal_id` with `choice` fits the counters
    /// wherever it can be accepted (see `has_room_for_vote`).
    pub fn room_for_vote(&self, voter: &IdentityId, proposal_id: &[u8; 32], choice: &DaoVoteChoice) -> (r: bool)
        ensures
            r == self.has_room_for_vote(*voter, *proposal_id, *choice),
    {
        let t = match self.dao_proposals.get(proposal_id) {
            None => {
                return true;
            },
            Some(p) => {
                if p.status != DaoProposalStatus::Active {
                    return true;
                }
                p.vote_tally
            },
        };
        match self.vote_tracking.get(proposal_id) {
            Some(user_votes) => {
                if user_votes.contains_key(voter) {
                    proof {
                        lemma_insert_map_values(self.vote_tracking@, *proposal_id, *user_votes, |m: IdMap<[u8; 32]>| m@);
                        assert(self.voters().contains_key(*proposal_id));
                    }
                    return true;
                }
                proof {
                    lemma_insert_map_values(self.vote_tracking@, *proposal_id, *user_votes, |m: IdMap<[u8; 32]>| m@);
                }
            },
            None => {},
        }
        proof {
            assert(self.vote_open_to(*voter, *proposal_id));
        }
        let full = match choice {
            DaoVoteChoice::Yes => t.yes_votes == u64::MAX || t.weighted_yes == u64::MAX,
            DaoVoteChoice::No => t.no_votes == u64::MAX || t.weighted_no == u64::MAX,
            _ => t.abstain_votes == u64::MAX || t.weighted_abstain == u64::MAX,
        };
        if t.total_votes == u64::MAX || full {
            return false;
        }
        let limit: u64 = 1844674407370955160;
        let ghost maps = self.vote_tracking.val_seq();
        let n = self.vote_tracking.len();
        let mut voters: u64 = 0;
        let mut i: usize = 0;
        while i < n
            invariant
                n == maps.len(),
                maps == self.vote_tracking.val_seq(),
                self.vote_tracking.well_keyed(),
                n == self.vote_tracking.key_seq().len(),
                i <= n,
                voters == voters_in(maps.take(i as int)),
                limit == 1844674407370955160,
                voters <= limit,
                self.vote_open_to(*voter, *proposal_id),
            decreases n - i,
        {
            proof {
                lemma_voters_in_prefix(maps, i + 1);
                assert(maps.take(i + 1).drop_last() =~= maps.take(i as int));
            }
            let count = self.vote_tracking.value_at(i).len() as u64;
            proof {
                assert(maps.take(i + 1).last() == maps[i as int]);
                assert(voters_in(maps.take(i + 1)) == voters + count);
            }
            if count > limit - voters {
                proof {
                    assert(self.voter_count() == voters_in(maps));
                    assert(voters_in(maps) > limit);
                }
                return false;
            }
            voters = voters + count;
            i = i + 1;
        }
        proof {
            assert(maps.take(n as int) =~= maps);
        }
        true
    }

    /// The amount that a treasury proposal asks for, named in its description as
    /// `amount:<number> `; 1000 when it names none.
    fn parse_treasury_amount_from_proposal(&self, proposal: &DaoProposal) -> (r: Result<u64, DaoError>)
        ensures
            r == Ok::<u64, DaoError>(treasury_amount(proposal.description@)),
    {
        Ok(treasury_amount_of(&proposal.description))
    }

    /// The treasury.
    pub fn get_dao_treasury(&self) -> (r: &DaoTreasury)
        ensures
            *r == self.treasury(),
    {
        &self.dao_treasury
    }

    /// All proposals, by id.
    pub fn get_dao_proposals(&self) -> (r: &IdMap<DaoProposal>)
        ensures
            r@ == self.proposals(),
            r.key_seq() == self.proposal_order(),
    {
        &self.dao_proposals
    }

    /// The proposal with id `proposal_id`, if any.
    pub fn get_dao_proposal_by_id(&self, proposal_id: &[u8; 32]) -> (r: Option<&DaoProposal>)
        ensures
            r is Some <==> self.proposals().contains_key(*proposal_id),
            r is Some ==> *(r->0) == self.proposals()[*proposal_id],
    {
        self.dao_proposals.get(proposal_id)
    }

    /// Creates a proposal at `now_secs` seconds and `now_nanos` nanoseconds since
    /// the Unix epoch, identified by the digest of its proposer, title, description
    /// and creation time.
    pub fn create_dao_proposal_at<H: Fn(&[u8]) -> [u8; 32]>(
        &mut self,
        proposer: IdentityId,
        title: String,
        description: String,
        proposal_type: DaoProposalType,
        voting_period_days: u32,
        hasher: &H,
        now_secs: u64,
        now_nanos: u128,
    ) -> (r: Result<[u8; 32], DaoError>)
        requires
            total_hasher(*hasher),
            now_secs + voting_period_days * 86400 <= u64::MAX,
        ensures
            Self::proposal_created(*old(self), *final(self), r, proposer, title, description, proposal_type,
                voting_period_days, *hasher, now_secs, now_nanos),
    {
        if let DaoProposalType::TreasuryAllocation = proposal_type {
            let proposer_voting_power = self.get_dao_voting_power(&proposer);
            if proposer_voting_power < 100 {
                return Err(DaoError::InsufficientVotingPower { required: 100, actual: proposer_voting_power });
            }
            if self.dao_treasury.available_balance < 1000 {
                return Err(DaoError::InsufficientTreasuryFunds { available: self.dao_treasury.available_balance });
            }
        }
        let ghost t = title;
        let ghost d = description;
        let proposal_id = digest(hasher, &proposal_id_preimage(&proposer, &title, &description, now_nanos));
        let voting_end_time = now_secs + voting_period_days as u64 * 24 * 60 * 60;
        let quorum_required: u8 = match proposal_type {
            DaoProposalType::TreasuryAllocation => 25,
            DaoProposalType::ProtocolUpgrade => 30,
            DaoProposalType::UbiDistribution => 20,
            _ => 10,
        };
        let created_at_height = self.get_current_block_height_at(now_secs);
        let proposal = DaoProposal {
            id: proposal_id,
            title,
            description,
            proposer,
            proposal_type,
            status: DaoProposalStatus::Active,
            voting_start_time: now_secs,
            voting_end_time,
            quorum_required,
            vote_tally: DaoVoteTally::default(),
            created_at: now_secs,
            created_at_height,
            execution_params: None,
        };
        proof {
            assert(proposal == new_proposal(proposal_id, t, d, proposer, proposal_type, now_secs, voting_period_days));
        }
        let ghost old_votes = self.dao_votes@;
        self.dao_proposals.insert(proposal_id, proposal);
        let no_votes: Vec<DaoVote> = Vec::new();
        let ghost nv = no_votes;
        self.dao_votes.insert(proposal_id, no_votes);
        proof {
            lemma_insert_map_values(old_votes, proposal_id, nv, |v: Vec<DaoVote>| v@);
        }
        Ok(proposal_id)
    }

    /// Creates a proposal, reading the system clock.
    pub fn create_dao_proposal<H: Fn(&[u8]) -> [u8; 32]>(
        &mut self,
        proposer: IdentityId,
        title: String,
        description: String,
        proposal_type: DaoProposalType,
        voting_period_days: u32,
        hasher: &H,
    ) -> (r: Result<[u8; 32], DaoError>)
        requires
            total_hasher(*hasher),
        ensures
            proposal_refusal(proposal_type, old(self).treasury().available_balance) is Some ==>
                r == Err::<[u8; 32], DaoError>(proposal_refusal(proposal_type, old(self).treasury().available_balance)->0)
                && *final(self) == *old(self),
            proposal_refusal(proposal_type, old(self).treasury().available_balance) is None ==>
                (r == Err::<[u8; 32], DaoError>(DaoError::ClockBeforeEpoch) && *final(self) == *old(self))
                || exists|now: u64, nanos: u128| #[trigger] Self::proposal_made_at(*old(self), *final(self), r, proposer,
                    title, description, proposal_type, voting_period_days, *hasher, now, nanos),
    {
        if let DaoProposalType::TreasuryAllocation = proposal_type {
            let proposer_voting_power = self.get_dao_voting_power(&proposer);
            if proposer_voting_power < 100 {
                return Err(DaoError::InsufficientVotingPower { required: 100, actual: proposer_voting_power });
            }
            if self.dao_treasury.available_balance < 1000 {
                return Err(DaoError::InsufficientTreasuryFunds { available: self.dao_treasury.available_balance });
            }
        }
        match unix_time_now() {
            Some((now_secs, now_nanos)) => {
                let ghost t = title;
                let ghost d = description;
                if now_secs as u128 + voting_period_days as u128 * 86400 > u64::MAX as u128 {
                    let r: Result<[u8; 32], DaoError> = Err(DaoError::VotingEndOverflow);
                    proof {
                        assert(Self::proposal_made_at(*old(self), *self, r, proposer, t, d, proposal_type,
                            voting_period_days, *hasher, now_secs, now_nanos));
                    }
                    return r;
                }
                let r = self.create_dao_proposal_at(proposer, title, description, proposal_type, voting_period_days,
                    hasher, now_secs, now_nanos);
                proof {
                    assert(Self::proposal_made_at(*old(self), *self, r, proposer, t, d, proposal_type,
                        voting_period_days, *hasher, now_secs, now_nanos));
                }
                r
            },
            None => Err(DaoError::ClockBeforeEpoch),
        }
    }

    /// Signs the vote of `voter` on `proposal_id` with `vote_choice` at `now`: the
    /// signature and key material are the digest of voter, proposal and choice.
    fn sign_dao_vote<H: Fn(&[u8]) -> [u8; 32]>(
        &self,
        voter: &IdentityId,
        proposal_id: &[u8; 32],
        vote_choice: &DaoVoteChoice,
        hasher: &H,
        now: u64,
    ) -> (s: crate::dao::dao_types::Signature)
        requires
            total_hasher(*hasher),
        ensures
            exists|d: [u8; 32]| #[trigger] hashed_by(*hasher, vote_signature_layout(*voter, *proposal_id, *vote_choice), d)
                && signature_of_digest(s, d, now),
    {
        let signature_hash = digest(hasher, &vote_signature_preimage(voter, proposal_id, vote_choice));
        signature_from_digest(&signature_hash, now)
    }

    /// Casts the vote of `voter` on `proposal_id` at `now` (seconds since the Unix epoch).
    pub fn cast_dao_vote_at<H: Fn(&[u8]) -> [u8; 32]>(
        &mut self,
        voter: IdentityId,
        proposal_id: [u8; 32],
        vote_choice: DaoVoteChoice,
        justification: Option<String>,
        hasher: &H,
        now: u64,
    ) -> (r: Result<[u8; 32], DaoError>)
        requires
            total_hasher(*hasher),
            old(self).has_room_for_vote(voter, proposal_id, vote_choice),
        ensures
            Self::vote_cast(*old(self), *final(self), r, voter, proposal_id, vote_choice, justification, *hasher, now),
    {
        let ghost j = justification;
        let (status, voting_end_time) = match self.dao_proposals.get(&proposal_id) {
            None => {
                return Err(DaoError::ProposalNotFound);
            },
            Some(p) => (p.status, p.voting_end_time),
        };
        if status != DaoProposalStatus::Active {
            return Err(DaoError::ProposalNotActive);
        }
        if now > voting_end_time {
            return Err(DaoError::VotingPeriodEnded);
        }
        match self.vote_tracking.get(&proposal_id) {
            Some(user_votes) => {
                if user_votes.contains_key(&voter) {
                    proof {
                        lemma_insert_map_values(self.vote_tracking@, proposal_id, *user_votes, |m: IdMap<[u8; 32]>| m@);
                        assert(self.voters().contains_key(proposal_id));
                    }
                    return Err(DaoError::AlreadyVoted);
                }
            },
            None => {},
        }
        let voting_power = self.get_dao_voting_power(&voter);
        if voting_power == 0 {
            return Err(DaoError::NoVotingPower);
        }
        let vote_id = digest(hasher, &vote_id_preimage(&proposal_id, &voter, &vote_choice, now));
        let signature = self.sign_dao_vote(&voter, &proposal_id, &vote_choice, hasher, now);
        let vote = DaoVote {
            id: vote_id,
            proposal_id,
            voter,
            vote_choice,
            voting_power,
            timestamp: now,
            signature,
            justification,
        };
        let ghost v = vote;
        proof {
            assert(Self::is_vote_record(v, vote_id, voter, proposal_id, vote_choice, j, *hasher, now));
        }

        // Store the vote.
        let ghost votes0 = self.dao_votes@;
        match self.dao_votes.position(&proposal_id) {
            Some(i) => {
                let list = self.dao_votes.value_at_mut(i);
                list.push(vote);
            },
            None => {
                let mut list: Vec<DaoVote> = Vec::new();
                list.push(vote);
                self.dao_votes.insert(proposal_id, list);
            },
        }
        proof {
            lemma_insert_map_values(votes0, proposal_id, self.dao_votes@[proposal_id], |l: Vec<DaoVote>| l@);
        }

        // Track that this voter voted.
        let ghost tracking0 = self.vote_tracking@;
        let ghost maps0 = self.vote_tracking.val_seq();
        match self.vote_tracking.position(&proposal_id) {
            Some(i) => {
                let user_votes = self.vote_tracking.value_at_mut(i);
                user_votes.insert(voter, vote_id);
                proof {
                    assert(!tracking0[proposal_id]@.contains_key(voter));
                    lemma_voters_in_update(maps0, i as int, self.vote_tracking.val_seq()[i as int]);
                }
            },
            None => {
                let mut user_votes: IdMap<[u8; 32]> = IdMap::new();
                user_votes.insert(voter, vote_id);
                self.vote_tracking.insert(proposal_id, user_votes);
                proof {
                    assert(self.vote_tracking.val_seq().drop_last() =~= maps0);
                }
            },
        }
        proof {
            lemma_insert_map_values(tracking0, proposal_id, self.vote_tracking@[proposal_id], |m: IdMap<[u8; 32]>| m@);
        }

        // Update the tally.
        let ghost props0 = self.dao_proposals@;
        match self.dao_proposals.get_mut(&proposal_id) {
            Some(proposal) => {
                match vote_choice {
                    DaoVoteChoice::Yes => {
                        proposal.vote_tally.yes_votes = proposal.vote_tally.yes_votes + 1;
                        proposal.vote_tally.weighted_yes = proposal.vote_tally.weighted_yes + voting_power;
                    },
                    DaoVoteChoice::No => {
                        proposal.vote_tally.no_votes = proposal.vote_tally.no_votes + 1;
                        proposal.vote_tally.weighted_no = proposal.vote_tally.weighted_no + voting_power;
                    },
                    DaoVoteChoice::Abstain => {
                        proposal.vote_tally.abstain_votes = proposal.vote_tally.abstain_votes + 1;
                        proposal.vote_tally.weighted_abstain = proposal.vote_tally.weighted_abstain + voting_power;
                    },
                    DaoVoteChoice::Delegate(_) => {
                        proposal.vote_tally.abstain_votes = proposal.vote_tally.abstain_votes + 1;
                        proposal.vote_tally.weighted_abstain = proposal.vote_tally.weighted_abstain + voting_power;
                    },
                }
                proposal.vote_tally.total_votes = proposal.vote_tally.total_votes + 1;
            },
            None => {},
        }

        // Update total eligible power in a separate step.
        let total_eligible_power = self.calculate_total_eligible_power();
        match self.dao_proposals.get_mut(&proposal_id) {
            Some(proposal) => {
                proposal.vote_tally.total_eligible_power = total_eligible_power;
            },
            None => {},
        }
        proof {
            let p = props0[proposal_id];
            let expected = DaoProposal {
                vote_tally: DaoVoteTally {
                    total_eligible_power: eligible_power_of(self.voter_count()) as u64,
                    ..tallied(p.vote_tally, vote_choice, citizen_power())
                },
                ..p
            };
            assert(self.dao_proposals@[proposal_id] == expected);
            assert(self.dao_proposals@ =~= props0.insert(proposal_id, expected));
        }
        Ok(vote_id)
    }

    /// Casts the vote of `voter` on `proposal_id`, reading the system clock.
    pub fn cast_dao_vote<H: Fn(&[u8]) -> [u8; 32]>(
        &mut self,
        voter: IdentityId,
        proposal_id: [u8; 32],
        vote_choice: DaoVoteChoice,
        justification: Option<String>,
        hasher: &H,
    ) -> (r: Result<[u8; 32], DaoError>)
        requires
            total_hasher(*hasher),
            old(self).has_room_for_vote(voter, proposal_id, vote_choice),
        ensures
            r == Err::<[u8; 32], DaoError>(DaoError::ClockBeforeEpoch) ==> *final(self) == *old(self)
                && old(self).proposals().contains_key(proposal_id)
                && old(self).proposals()[proposal_id].status == DaoProposalStatus::Active,
            r != Err::<[u8; 32], DaoError>(DaoError::ClockBeforeEpoch) ==>
                exists|now: u64| #[trigger] Self::vote_cast(*old(self), *final(self), r, voter, proposal_id, vote_choice,
                    justification, *hasher, now),
    {
        match unix_time_now() {
            Some((now, _)) => {
                let ghost j = justification;
                let r = self.cast_dao_vote_at(voter, proposal_id, vote_choice, justification, hasher, now);
                proof {
                    assert(Self::vote_cast(*old(self), *self, r, voter, proposal_id, vote_choice, j, *hasher, now));
                }
                r
            },
            None => {
                let ghost j = justification;
                match self.dao_proposals.get(&proposal_id) {
                    None => {
                        proof {
                            assert(Self::vote_cast(*old(self), *self, Err(DaoError::ProposalNotFound), voter,
                                proposal_id, vote_choice, j, *hasher, 0));
                        }
                        Err(DaoError::ProposalNotFound)
                    },
                    Some(p) => {
                        if p.status != DaoProposalStatus::Active {
                            proof {
                                assert(Self::vote_cast(*old(self), *self, Err(DaoError::ProposalNotActive), voter,
                                    proposal_id, vote_choice, j, *hasher, 0));
                            }
                            Err(DaoError::ProposalNotActive)
                        } else {
                            Err(DaoError::ClockBeforeEpoch)
                        }
                    },
                }
            },
        }
    }

    /// Executes the passed proposal `proposal_id` at `now`: a treasury allocation
    /// moves its amount from the available to the allocated funds and is recorded.
    fn execute_dao_proposal<H: Fn(&[u8]) -> [u8; 32]>(&mut self, proposal_id: &[u8; 32], hasher: &H, now: u64) -> (r: Result<(), DaoError>)
        requires
            total_hasher(*hasher),
            old(self).dao_treasury.allocated_funds + old(self).dao_treasury.available_balance <= u64::MAX,
        ensures
            final(self).dao_votes == old(self).dao_votes,
            final(self).vote_tracking == old(self).vote_tracking,
            final(self).dao_proposals.key_seq() == old(self).dao_proposals.key_seq(),
            final(self).dao_treasury.total_balance == old(self).dao_treasury.total_balance,
            final(self).dao_treasury.reserved_funds == old(self).dao_treasury.reserved_funds,
            final(self).dao_treasury.annual_budgets == old(self).dao_treasury.annual_budgets,
            final(self).dao_treasury.allocated_funds + final(self).dao_treasury.available_balance
                == old(self).dao_treasury.allocated_funds + old(self).dao_treasury.available_balance,
            ({
                let one = executed(old(self).proposals(), old(self).dao_treasury.available_balance,
                    old(self).dao_treasury.allocated_funds, seq![*proposal_id]);
                let h0 = old(self).dao_treasury.transaction_history@;
                let h1 = final(self).dao_treasury.transaction_history@;
                &&& r == (match one.4 { Some(e) => Err(e), None => Ok::<(), DaoError>(()) })
                &&& final(self).proposals() == one.0
                &&& final(self).dao_treasury.available_balance == one.1
                &&& final(self).dao_treasury.allocated_funds == one.2
                &&& h1.len() == h0.len() + one.3.len()
                &&& h1.take(h0.len() as int) == h0
                &&& forall|i: int| 0 <= i < one.3.len() ==> is_allocation_record(#[trigger] h1[h0.len() + i], one.3[i].0,
                    one.3[i].1, old(self).proposals()[one.3[i].0].title@, *hasher, now)
            }),
    {
        let ghost props0 = self.dao_proposals@;
        proof {
            assert(seq![*proposal_id].drop_first() =~= Seq::<[u8; 32]>::empty());
        }
        let (tally, proposal_type, quorum_required, amount, title) = match self.dao_proposals.get(proposal_id) {
            None => {
                return Err(DaoError::ProposalNotFound);
            },
            Some(p) => {
                let amount = if p.proposal_type == DaoProposalType::TreasuryAllocation {
                    match self.parse_treasury_amount_from_proposal(p) {
                        Ok(a) => a,
                        Err(e) => {
                            return Err(e);
                        },
                    }
                } else {
                    0
                };
                (p.vote_tally, p.proposal_type, p.quorum_required, amount, p.title.clone())
            },
        };
        let required_approval: u64 = match proposal_type {
            DaoProposalType::TreasuryAllocation => 60,
            DaoProposalType::ProtocolUpgrade => 70,
            _ => 50,
        };
        let ghost pv = props0[*proposal_id];
        let ghost av0 = self.dao_treasury.available_balance;
        let ghost al0 = self.dao_treasury.allocated_funds;
        let ghost h00 = self.dao_treasury.transaction_history@;
        proof {
            assert(seq![*proposal_id][0] == *proposal_id);
            assert(tally == pv.vote_tally);
            assert(proposal_type == pv.proposal_type);
            assert(required_approval == approval_for(pv.proposal_type));
            assert(quorum_required == pv.quorum_required);
            assert(pv.proposal_type == DaoProposalType::TreasuryAllocation ==> amount == treasury_amount(pv.description@));
            assert(title@ == pv.title@);
            let ra = required_approval as u128;
            let tv = tally.total_votes as u128;
            assert(ra * tv <= 70 * 0xFFFF_FFFF_FFFF_FFFFu128) by (nonlinear_arith)
                requires ra <= 70, tv <= 0xFFFF_FFFF_FFFF_FFFFu128;
            let qr = quorum_required as u128;
            let ep = tally.total_eligible_power as u128;
            assert(qr * ep <= 255 * 0xFFFF_FFFF_FFFF_FFFFu128) by (nonlinear_arith)
                requires qr <= 255, ep <= 0xFFFF_FFFF_FFFF_FFFFu128;
        }
        let approval_short = if tally.total_votes > 0 {
            (tally.yes_votes as u128) * 100 < (required_approval as u128) * (tally.total_votes as u128)
        } else {
            true
        };
        if approval_short {
            return Err(DaoError::InsufficientApproval {
                yes_votes: tally.yes_votes,
                total_votes: tally.total_votes,
                required_percent: required_approval,
            });
        }
        let quorum_short = if tally.total_eligible_power > 0 {
            (tally.total_votes as u128) * 100 < (quorum_required as u128) * (tally.total_eligible_power as u128)
        } else {
            0 < quorum_required
        };
        if quorum_short {
            return Err(DaoError::InsufficientQuorum {
                total_votes: tally.total_votes,
                eligible_power: tally.total_eligible_power,
                quorum_percent: quorum_required,
            });
        }
        match proposal_type {
            DaoProposalType::TreasuryAllocation => {
                if (tally.yes_votes as u128) * 100 < 60 * (tally.total_votes as u128) {
                    return Err(DaoError::TreasuryApprovalTooLow { yes_votes: tally.yes_votes, total_votes: tally.total_votes });
                }
                if self.dao_treasury.available_balance < amount {
                    return Err(DaoError::TreasuryFundsShort {
                        available: self.dao_treasury.available_balance,
                        requested: amount,
                    });
                }
                self.dao_treasury.available_balance = self.dao_treasury.available_balance - amount;
                self.dao_treasury.allocated_funds = self.dao_treasury.allocated_funds + amount;
                let tx_id = digest(hasher, &allocation_id_preimage(proposal_id, amount));
                let transaction = TreasuryTransaction {
                    id: tx_id,
                    transaction_type: TreasuryTransactionType::Allocation,
                    amount,
                    recipient: None,
                    source: None,
                    proposal_id: Some(*proposal_id),
                    timestamp: now,
                    description: title,
                };
                let ghost h0 = self.dao_treasury.transaction_history@;
                self.dao_treasury.transaction_history.push(transaction);
                proof {
                    assert(self.dao_treasury.transaction_history@.take(h0.len() as int) =~= h0);
                }
            },
            _ => {},
        }
        match self.dao_proposals.get_mut(proposal_id) {
            Some(proposal_mut) => {
                proposal_mut.status = DaoProposalStatus::Executed;
            },
            None => {},
        }
        proof {
            let p = props0[*proposal_id];
            assert(self.dao_proposals@ =~= props0.insert(*proposal_id, DaoProposal { status: DaoProposalStatus::Executed, ..p }));
            assert(execution_error(pv, av0) is None);
            reveal_with_fuel(executed, 2);
            let one = executed(props0, av0, al0, seq![*proposal_id]);
            assert(one.4 is None);
            assert(self.dao_proposals@ == one.0);
            assert(self.dao_treasury.available_balance == one.1);
            if pv.proposal_type == DaoProposalType::TreasuryAllocation {
                assert(one.3 =~= seq![(*proposal_id, amount)]);
                assert(self.dao_treasury.transaction_history@[h00.len() as int].description@ == pv.title@);
            } else {
                assert(one.3 =~= Seq::<([u8; 32], u64)>::empty());
            }
        }
        Ok(())
    }

    /// Decides the proposals whose voting period ended before `now` (seconds since
    /// the Unix epoch) and executes the passed ones.
    pub fn process_expired_proposals_at<H: Fn(&[u8]) -> [u8; 32]>(&mut self, hasher: &H, now: u64) -> (r: Result<(), DaoError>)
        requires
            total_hasher(*hasher),
            old(self).can_process_expired(),
        ensures
            Self::expired_processed(*old(self), *final(self), r, *hasher, now),
    {
        let ghost props0 = self.dao_proposals@;
        let ghost order = self.dao_proposals.key_seq();
        let ghost exp = expired_in(props0, now);
        let ghost pas = passes_in(props0);

        // Find expired proposals.
        let n = self.dao_proposals.len();
        let mut proposals_to_update: Vec<[u8; 32]> = Vec::new();
        let mut i: usize = 0;
        while i < n
            invariant
                n == order.len(),
                self.dao_proposals@ == props0,
                self.dao_proposals.key_seq() == order,
                self.dao_proposals.well_keyed(),
                exp == expired_in(props0, now),
                i <= n,
                proposals_to_update@ == order.take(i as int).filter(exp),
                crate::id_map::distinct(proposals_to_update@),
                forall|x: [u8; 32]| #[trigger] proposals_to_update@.contains(x) <==>
                    (exists|t: int| 0 <= t < i && order[t] == x && is_expired(props0[x], now)),
            decreases n - i,
        {
            let id = self.dao_proposals.key_at(i);
            let p = self.dao_proposals.value_at(i);
            let ghost prev = proposals_to_update@;
            proof {
                assert(order.take(i + 1) =~= order.take(i as int).push(id));
                order.take(i as int).lemma_filter_push(id, exp);
            }
            if p.status == DaoProposalStatus::Active && now > p.voting_end_time {
                proof {
                    assert(!prev.contains(id)) by {
                        if prev.contains(id) {
                            let t = choose|t: int| 0 <= t < i && order[t] == id && is_expired(props0[id], now);
                            assert(order[t] == order[i as int]);
                        }
                    }
                }
                proposals_to_update.push(id);
                proof {
                    assert forall|a: int, b: int| 0 <= a < b < proposals_to_update@.len() implies
                        proposals_to_update@[a] != proposals_to_update@[b] by {
                        if b == prev.len() {
                            assert(prev.contains(prev[a]));
                        }
                    }
                    assert forall|x: [u8; 32]| #[trigger] proposals_to_update@.contains(x) <==>
                        (exists|t: int| 0 <= t < i + 1 && order[t] == x && is_expired(props0[x], now)) by {
                        if proposals_to_update@.contains(x) && x != id {
                            let t = proposals_to_update@.index_of(x);
                            assert(prev[t] == x);
                            assert(prev.contains(x));
                        }
                        if x == id {
                            assert(proposals_to_update@[prev.len() as int] == x);
                        }
                        if (exists|t: int| 0 <= t < i + 1 && order[t] == x && is_expired(props0[x], now)) && x != id {
                            let t = choose|t: int| 0 <= t < i + 1 && order[t] == x && is_expired(props0[x], now);
                            assert(t != i);
                            assert(prev.contains(x));
                            let u = prev.index_of(x);
                            assert(proposals_to_update@[u] == x);
                        }
                    }
                }
            } else {
                proof {
                    assert forall|x: [u8; 32]| #[trigger] proposals_to_update@.contains(x) <==>
                        (exists|t: int| 0 <= t < i + 1 && order[t] == x && is_expired(props0[x], now)) by {
                        if (exists|t: int| 0 <= t < i + 1 && order[t] == x && is_expired(props0[x], now)) {
                            let t = choose|t: int| 0 <= t < i + 1 && order[t] == x && is_expired(props0[x], now);
                            if t == i {
                                assert(x == id);
                            }
                        }
                    }
                }
            }
            i = i + 1;
        }
        proof {
            assert(order.take(n as int) =~= order);
        }

        // Decide the expired proposals.
        let ghost upd = proposals_to_update@;
        let m = proposals_to_update.len();
        let mut proposals_to_execute: Vec<[u8; 32]> = Vec::new();
        let mut j: usize = 0;
        while j < m
            invariant
                m == upd.len(),
                upd == proposals_to_update@,
                crate::id_map::distinct(upd),
                forall|x: [u8; 32]| #[trigger] upd.contains(x) ==> props0.contains_key(x) && is_expired(props0[x], now),
                old(self).can_process_expired(),
                props0 == old(self).proposals(),
                pas == passes_in(props0),
                j <= m,
                self.dao_proposals.key_seq() == order,
                self.dao_votes == old(self).dao_votes,
                self.vote_tracking == old(self).vote_tracking,
                self.dao_treasury == old(self).dao_treasury,
                self.dao_proposals@.dom() == props0.dom(),
                forall|x: [u8; 32]| #[trigger] self.dao_proposals@.contains_key(x) ==> self.dao_proposals@[x] == (if upd.take(j as int).contains(x) {
                    decided(props0[x])
                } else {
                    props0[x]
                }),
                proposals_to_execute@ == upd.take(j as int).filter(pas),
            decreases m - j,
        {
            let id = proposals_to_update[j];
            proof {
                assert(upd.contains(id));
                assert(!upd.take(j as int).contains(id)) by {
                    if upd.take(j as int).contains(id) {
                        let t = upd.take(j as int).index_of(id);
                        assert(upd[t] == upd[j as int]);
                    }
                }
                assert(upd.take(j + 1) =~= upd.take(j as int).push(id));
                upd.take(j as int).lemma_filter_push(id, pas);
                assert forall|x: [u8; 32]| #[trigger] upd.take(j + 1).contains(x) == (upd.take(j as int).contains(x) || x == id) by {
                    if upd.take(j + 1).contains(x) && x != id {
                        let t = upd.take(j + 1).index_of(x);
                        assert(upd.take(j as int)[t] == x);
                    }
                    if upd.take(j as int).contains(x) {
                        let t = upd.take(j as int).index_of(x);
                        assert(upd.take(j + 1)[t] == x);
                    }
                    if x == id {
                        assert(upd.take(j + 1)[j as int] == x);
                    }
                }
            }
            match self.dao_proposals.get_mut(&id) {
                Some(proposal) => {
                    let t = proposal.vote_tally;
                    let quorum_met = if t.total_eligible_power > 0 {
                        (t.total_votes as u128) * 100 / (t.total_eligible_power as u128) >= proposal.quorum_required as u128
                    } else {
                        proposal.quorum_required == 0
                    };
                    if quorum_met {
                        if t.yes_votes > t.no_votes {
                            proposal.status = DaoProposalStatus::Passed;
                            proposals_to_execute.push(id);
                        } else {
                            proposal.status = DaoProposalStatus::Failed;
                        }
                    } else {
                        proposal.status = DaoProposalStatus::Failed;
                    }
                },
                None => {},
            }
            proof {
                assert(self.dao_proposals@[id] == decided(props0[id]));
            }
            j = j + 1;
        }
        proof {
            assert(upd.take(m as int) =~= upd);
            assert(self.dao_proposals@ =~= decide_expired(props0, now)) by {
                assert forall|x: [u8; 32]| #[trigger] self.dao_proposals@.contains_key(x) implies
                    self.dao_proposals@[x] == decide_expired(props0, now)[x] by {
                    if is_expired(props0[x], now) {
                        assert(order.contains(x));
                        let t = order.index_of(x);
                        assert(exists|t: int| 0 <= t < n && order[t] == x && is_expired(props0[x], now));
                    }
                }
            }
            assert(proposals_to_execute@ == passed_ids(order, props0, now));
        }

        // Execute the passed proposals.
        let ghost ids = proposals_to_execute@;
        let ghost out = executed(decide_expired(props0, now), old(self).dao_treasury.available_balance,
            old(self).dao_treasury.allocated_funds, ids);
        let ghost h0 = old(self).dao_treasury.transaction_history@;
        let ghost mut allocs: Seq<([u8; 32], u64)> = Seq::empty();
        proof {
            assert(ids.skip(0) =~= ids);
            let rest0 = executed(self.dao_proposals@, self.dao_treasury.available_balance,
                self.dao_treasury.allocated_funds, ids.skip(0));
            assert(allocs + rest0.3 =~= rest0.3);
            assert(self.dao_treasury.transaction_history@.take(h0.len() as int) =~= h0);
        }
        let q = proposals_to_execute.len();
        let mut k: usize = 0;
        while k < q
            invariant
                q == ids.len(),
                ids == proposals_to_execute@,
                props0 == old(self).proposals(),
                order == old(self).proposal_order(),
                ids == passed_ids(old(self).proposal_order(), old(self).proposals(), now),
                out == executed(decide_expired(old(self).proposals(), now), old(self).treasury().available_balance,
                    old(self).treasury().allocated_funds, ids),
                h0 == old(self).treasury().transaction_history@,
                total_hasher(*hasher),
                k <= q,
                self.dao_proposals.key_seq() == order,
                self.dao_votes == old(self).dao_votes,
                self.vote_tracking == old(self).vote_tracking,
                self.dao_treasury.total_balance == old(self).dao_treasury.total_balance,
                self.dao_treasury.reserved_funds == old(self).dao_treasury.reserved_funds,
                self.dao_treasury.annual_budgets == old(self).dao_treasury.annual_budgets,
                self.dao_treasury.allocated_funds + self.dao_treasury.available_balance
                    == old(self).dao_treasury.allocated_funds + old(self).dao_treasury.available_balance,
                old(self).dao_treasury.allocated_funds + old(self).dao_treasury.available_balance <= u64::MAX,
                self.dao_proposals@.dom() == props0.dom(),
                forall|x: [u8; 32]| #[trigger] self.dao_proposals@.contains_key(x) ==> self.dao_proposals@[x].title == props0[x].title,
                ({
                    let rest = executed(self.dao_proposals@, self.dao_treasury.available_balance,
                        self.dao_treasury.allocated_funds, ids.skip(k as int));
                    &&& out.0 == rest.0
                    &&& out.1 == rest.1
                    &&& out.2 == rest.2
                    &&& out.3 == allocs + rest.3
                    &&& out.4 == rest.4
                }),
                self.dao_treasury.transaction_history@.len() == h0.len() + allocs.len(),
                self.dao_treasury.transaction_history@.take(h0.len() as int) == h0,
                forall|t: int| 0 <= t < allocs.len() ==> is_allocation_record(
                    #[trigger] self.dao_treasury.transaction_history@[h0.len() + t], allocs[t].0, allocs[t].1,
                    props0[allocs[t].0].title@, *hasher, now),
                forall|t: int| 0 <= t < allocs.len() ==> props0.contains_key(#[trigger] allocs[t].0),
            decreases q - k,
        {
            let id = proposals_to_execute[k];
            let ghost cur = self.dao_proposals@;
            let ghost hist = self.dao_treasury.transaction_history@;
            let ghost av = self.dao_treasury.available_balance;
            let ghost al = self.dao_treasury.allocated_funds;
            proof {
                lemma_executed_step(cur, self.dao_treasury.available_balance, self.dao_treasury.allocated_funds, ids.skip(k as int));
                assert(ids.skip(k as int)[0] == id);
                assert(ids.skip(k as int).drop_first() =~= ids.skip(k + 1));
            }
            let res = self.execute_dao_proposal(&id, hasher, now);
            match res {
                Err(e) => {
                    proof {
                        let one = executed(cur, av, al, seq![id]);
                        assert(one.4 == Some(e));
                        assert(out.4 == Some(e));
                        assert(one.3.len() == 0);
                        assert(self.dao_treasury.transaction_history@ =~= hist);
                        assert(out.3 =~= allocs + Seq::<([u8; 32], u64)>::empty());
                    }
                    return Err(e);
                },
                Ok(()) => {},
            }
            proof {
                let one = executed(cur, av, al, seq![id]);
                let h1 = self.dao_treasury.transaction_history@;
                reveal_with_fuel(executed, 2);
                assert forall|x: [u8; 32]| #[trigger] self.dao_proposals@.contains_key(x) implies
                    self.dao_proposals@[x].title == props0[x].title by {
                    assert(cur.contains_key(x));
                }
                assert(self.dao_proposals@.dom() =~= props0.dom());
                let old_allocs = allocs;
                allocs = allocs + one.3;
                assert(allocs.len() == old_allocs.len() + one.3.len());
                assert(h1.take(h0.len() as int) =~= h0) by {
                    assert(h1.take(hist.len() as int) == hist);
                    assert(hist.take(h0.len() as int) == h0);
                }
                assert forall|t: int| 0 <= t < allocs.len() implies is_allocation_record(
                    #[trigger] h1[h0.len() + t], allocs[t].0, allocs[t].1, props0[allocs[t].0].title@, *hasher, now)
                    && props0.contains_key(allocs[t].0) by {
                    if t < old_allocs.len() {
                        assert(h1[h0.len() + t] == hist[h0.len() + t]) by {
                            assert(h1.take(hist.len() as int)[h0.len() + t] == hist[h0.len() + t]);
                        }
                    } else {
                        let u = t - old_allocs.len();
                        assert(allocs[t] == one.3[u]);
                        assert(h1[h0.len() + t] == h1[hist.len() + u]);
                        reveal_with_fuel(executed, 2);
                        assert(one.3[u].0 == id);
                    }
                }
            }
            k = k + 1;
        }
        proof {
            assert(ids.skip(q as int) =~= Seq::<[u8; 32]>::empty());
            assert(out.4 is None);
            assert(out.3 =~= allocs);
        }
        Ok(())
    }

    /// Decides the proposals whose voting period has ended and executes the passed
    /// ones, reading the system clock.
    pub fn process_expired_proposals<H: Fn(&[u8]) -> [u8; 32]>(&mut self, hasher: &H) -> (r: Result<(), DaoError>)
        requires
            total_hasher(*hasher),
            old(self).treasury().allocated_funds + old(self).treasury().available_balance <= u64::MAX,
        ensures
            (r == Err::<(), DaoError>(DaoError::ClockBeforeEpoch) && *final(self) == *old(self))
                || exists|now: u64| #[trigger] Self::expired_processed(*old(self), *final(self), r, *hasher, now),
    {
        match unix_time_now() {
            Some((now, _)) => {
                let r = self.process_expired_proposals_at(hasher, now);
                proof {
                    assert(Self::expired_processed(*old(self), *self, r, *hasher, now));
                }
                r
            },
            None => Err(DaoError::ClockBeforeEpoch),
        }
    }

    /// The votes cast by `user_id`, proposal after proposal in the order they were
    /// first stored, each proposal's in casting order.
    pub fn get_user_dao_votes(&self, user_id: &[u8; 32]) -> (r: Vec<&DaoVote>)
        ensures
            r@.len() == flatten_votes(self.vote_lists()).filter(cast_by(*user_id)).len(),
            forall|i: int| 0 <= i < r@.len() ==> *r@[i] == flatten_votes(self.vote_lists()).filter(cast_by(*user_id))[i],
    {
        let ghost ls = self.vote_lists();
        let ghost p = cast_by(*user_id);
        let n = self.dao_votes.len();
        let mut r: Vec<&DaoVote> = Vec::new();
        let ghost mut got: Seq<DaoVote> = Seq::empty();
        let mut i: usize = 0;
        while i < n
            invariant
                n == ls.len(),
                ls == self.vote_lists(),
                self.dao_votes.well_keyed(),
                n == self.dao_votes.key_seq().len(),
                p == cast_by(*user_id),
                i <= n,
                got == flatten_votes(ls.take(i as int)).filter(p),
                r@.len() == got.len(),
                forall|k: int| 0 <= k < r@.len() ==> *r@[k] == got[k],
            decreases n - i,
        {
            let votes = self.dao_votes.value_at(i);
            let ghost base = flatten_votes(ls.take(i as int));
            proof {
                assert(votes@ == ls[i as int]);
            }
            let mut j: usize = 0;
            while j < votes.len()
                invariant
                    votes@ == ls[i as int],
                    p == cast_by(*user_id),
                    j <= votes@.len(),
                    got == (base + votes@.take(j as int)).filter(p),
                    r@.len() == got.len(),
                    forall|k: int| 0 <= k < r@.len() ==> *r@[k] == got[k],
                decreases votes@.len() - j,
            {
                let v = &votes[j];
                proof {
                    assert(base + votes@.take(j + 1) =~= (base + votes@.take(j as int)).push(*v));
                    (base + votes@.take(j as int)).lemma_filter_push(*v, p);
                }
                if crate::id_map::same_id(&v.voter, user_id) {
                    r.push(v);
                    proof {
                        got = got.push(*v);
                    }
                }
                j = j + 1;
            }
            proof {
                assert(votes@.take(votes@.len() as int) =~= votes@);
                assert(ls.take(i + 1).drop_last() =~= ls.take(i as int));
                assert(ls.take(i + 1).last() == ls[i as int]);
            }
            i = i + 1;
        }
        proof {
            assert(ls.take(n as int) =~= ls);
        }
        r
    }
}

} // verus!
