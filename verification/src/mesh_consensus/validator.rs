//! Mesh Validator Management
//!
//! Tracks validators participating in mesh consensus.

use crate::clock::unix_time_secs;
use crate::id_map::{lemma_keyed_map_values, IdMap};
use crate::mesh_consensus::config::OFFLINE_AFTER_SECS;
use vstd::prelude::*;

verus! {

/// Status of a validator in the mesh.
#[derive(Debug, Clone, Copy, PartialEq, Eq, Structural)]
pub enum ValidatorStatus {
    /// Active and participating in consensus
    Active,
    /// Temporarily offline but still registered
    Offline,
    /// Removed from validator set
    Removed,
    /// Slashed for Byzantine behavior
    Slashed,
}

/// Mesh validator information.
#[derive(Debug, Clone, Copy)]
pub struct MeshValidator {
    /// Unique validator ID (node ID)
    pub validator_id: [u8; 32],
    /// Wallet address for rewards
    pub wallet_address: [u8; 32],
    /// Reputation score (0-100)
    pub reputation: u32,
    /// Number of blocks validated
    pub blocks_validated: u64,
    /// Number of blocks proposed
    pub blocks_proposed: u64,
    /// Current status
    pub status: ValidatorStatus,
    /// When this validator joined
    pub joined_at_height: u64,
    /// Last time validator was seen
    pub last_seen: u64,
    /// Voting power (based on reputation)
    pub voting_power: u32,
}

/// `v` seen at `now`: an offline validator becomes active again.
pub open spec fn seen_at(v: MeshValidator, now: u64) -> MeshValidator {
    MeshValidator {
        last_seen: now,
        status: if v.status == ValidatorStatus::Offline { ValidatorStatus::Active } else { v.status },
        ..v
    }
}

/// More than five minutes passed between the last sign of life of `v` and `now`.
pub open spec fn silent_at(v: MeshValidator, now: u64) -> bool {
    now - v.last_seen > OFFLINE_AFTER_SECS
}

/// An active validator that has been silent at `now` is taken offline; any other
/// validator is left as it is.
pub open spec fn status_at(v: MeshValidator, now: u64) -> MeshValidator {
    if v.status == ValidatorStatus::Active && silent_at(v, now) {
        MeshValidator { status: ValidatorStatus::Offline, ..v }
    } else {
        v
    }
}

/// `v` after recording one more validated block, seen at `now`.
pub open spec fn validated_at(v: MeshValidator, now: u64) -> MeshValidator {
    MeshValidator {
        blocks_validated: (v.blocks_validated + 1) as u64,
        reputation: if v.reputation < 100 { (v.reputation + 1) as u32 } else { v.reputation },
        ..seen_at(v, now)
    }
}

/// Reputation below which a validator is slashed.
pub open spec fn slash_floor() -> u32 {
    10
}

/// `v` with its reputation lowered by `amount` (not below 0), slashed when it
/// falls below 10.
pub open spec fn slashed(v: MeshValidator, amount: u32) -> MeshValidator {
    let reputation = if v.reputation >= amount { (v.reputation - amount) as u32 } else { 0u32 };
    MeshValidator {
        reputation,
        status: if reputation < slash_floor() { ValidatorStatus::Slashed } else { v.status },
        ..v
    }
}

impl MeshValidator {
    /// A new active validator with reputation 50, voting power 1, last seen at `now`.
    pub fn new_at(validator_id: [u8; 32], wallet_address: [u8; 32], joined_at_height: u64, now: u64) -> (r: Self)
        ensures
            r == (MeshValidator {
                validator_id,
                wallet_address,
                reputation: 50,
                blocks_validated: 0,
                blocks_proposed: 0,
                status: ValidatorStatus::Active,
                joined_at_height,
                last_seen: now,
                voting_power: 1,
            }),
    {
        MeshValidator {
            validator_id,
            wallet_address,
            reputation: 50,
            blocks_validated: 0,
            blocks_proposed: 0,
            status: ValidatorStatus::Active,
            joined_at_height,
            last_seen: now,
            voting_power: 1,
        }
    }

    /// A new active validator with reputation 50, voting power 1, seen now by the system clock.
    pub fn new(validator_id: [u8; 32], wallet_address: [u8; 32], joined_at_height: u64) -> (r: Self)
        ensures
            r == (MeshValidator {
                validator_id,
                wallet_address,
                reputation: 50,
                blocks_validated: 0,
                blocks_proposed: 0,
                status: ValidatorStatus::Active,
                joined_at_height,
                last_seen: r.last_seen,
                voting_power: 1,
            }),
    {
        Self::new_at(validator_id, wallet_address, joined_at_height, unix_time_secs())
    }

    /// Records a sign of life at `now`; an offline validator becomes active.
    pub fn mark_online_at(&mut self, now: u64)
        ensures
            *final(self) == seen_at(*old(self), now),
    {
        self.last_seen = now;
        if self.status == ValidatorStatus::Offline {
            self.status = ValidatorStatus::Active;
        }
    }

    /// Records a sign of life now by the system clock; an offline validator becomes active.
    pub fn mark_online(&mut self)
        ensures
            *final(self) == seen_at(*old(self), final(self).last_seen),
    {
        self.mark_online_at(unix_time_secs());
    }

    /// Counts one more validated block, marks the validator online and raises its
    /// reputation by one, up to 100.
    pub fn record_validation(&mut self)
        requires
            old(self).blocks_validated < u64::MAX,
        ensures
            *final(self) == validated_at(*old(self), final(self).last_seen),
    {
        self.blocks_validated = self.blocks_validated + 1;
        self.mark_online();
        if self.reputation < 100 {
            let raised = self.reputation + 1;
            self.reputation = if raised < 100 { raised } else { 100 };
        }
    }

    /// Counts one more proposed block and marks the validator online.
    pub fn record_proposal(&mut self)
        requires
            old(self).blocks_proposed < u64::MAX,
        ensures
            *final(self) == (MeshValidator {
                blocks_proposed: (old(self).blocks_proposed + 1) as u64,
                ..seen_at(*old(self), final(self).last_seen)
            }),
    {
        self.blocks_proposed = self.blocks_proposed + 1;
        self.mark_online();
    }

    /// Lowers the reputation by `amount` (not below 0); below 10 the validator is slashed.
    pub fn slash_reputation(&mut self, amount: u32)
        ensures
            *final(self) == slashed(*old(self), amount),
    {
        self.reputation = self.reputation.saturating_sub(amount);
        if self.reputation < 10 {
            self.status = ValidatorStatus::Slashed;
        }
    }

    /// Whether the validator is active.
    pub fn is_active(&self) -> (r: bool)
        ensures
            r == (self.status == ValidatorStatus::Active),
    {
        self.status == ValidatorStatus::Active
    }

    /// Whether the validator has been silent for more than five minutes at `now`.
    pub fn is_offline_at(&self, now: u64) -> (r: bool)
        ensures
            r == silent_at(*self, now),
    {
        now >= self.last_seen && now - self.last_seen > OFFLINE_AFTER_SECS
    }

    /// Whether the validator has been silent for more than five minutes, by the system clock.
    pub fn is_offline(&self) -> (r: bool)
        ensures
            exists|now: u64| r == silent_at(*self, now),
    {
        let now = unix_time_secs();
        self.is_offline_at(now)
    }
}

/// The proposer that `index` designates among the `active` validator ids.
pub open spec fn proposer_at(active: Seq<[u8; 32]>, index: nat) -> Option<[u8; 32]> {
    if active.len() == 0 {
        None
    } else {
        Some(active[(index % active.len()) as int])
    }
}

/// The proposer index after one rotation among `count` active validators.
pub open spec fn rotated(index: nat, count: nat) -> nat {
    (index + 1) % (if count == 0 { 1 } else { count })
}

/// The records of the ids of `ids` that have one, in the order of `ids`.
pub open spec fn records_of(ids: Seq<[u8; 32]>, records: Map<[u8; 32], MeshValidator>) -> Seq<MeshValidator>
    decreases ids.len(),
{
    if ids.len() == 0 {
        Seq::empty()
    } else {
        let rest = records_of(ids.drop_last(), records);
        if records.contains_key(ids.last()) {
            rest.push(records[ids.last()])
        } else {
            rest
        }
    }
}

/// Every id but `id`.
pub open spec fn other_than(id: [u8; 32]) -> spec_fn([u8; 32]) -> bool {
    |x: [u8; 32]| x != id
}

/// `id` is the id of a validator that goes offline at `now`.
pub open spec fn goes_offline(records: Map<[u8; 32], MeshValidator>, id: [u8; 32], now: u64) -> bool {
    records.contains_key(id) && records[id].status == ValidatorStatus::Active && silent_at(records[id], now)
}

/// `v` is active and has been silent at `now`.
pub open spec fn silent_active(v: MeshValidator, now: u64) -> bool {
    v.status == ValidatorStatus::Active && silent_at(v, now)
}

/// Among the first `upto` entries, the one keyed `x` goes offline at `now`.
pub open spec fn went_offline_before(keys: Seq<[u8; 32]>, vals: Seq<MeshValidator>, upto: int, x: [u8; 32], now: u64) -> bool {
    exists|j: int| 0 <= j < upto && keys[j] == x && silent_active(vals[j], now)
}

/// Set of validators for a mesh.
#[derive(Debug)]
pub struct ValidatorSet {
    /// All validators (active and inactive)
    validators: IdMap<MeshValidator>,
    /// Ordered list of active validator IDs (for round-robin)
    active_validators: Vec<[u8; 32]>,
    /// Current proposer index
    proposer_index: usize,
}

/// Whether `ids` holds `id`.
fn holds_id(ids: &Vec<[u8; 32]>, id: &[u8; 32]) -> (r: bool)
    ensures
        r == ids@.contains(*id),
{
    let mut i: usize = 0;
    while i < ids.len()
        invariant
            i <= ids@.len(),
            forall|j: int| 0 <= j < i ==> ids@[j] != *id,
        decreases ids@.len() - i,
    {
        if crate::id_map::same_id(&ids[i], id) {
            proof {
                assert(ids@[i as int] == *id);
            }
            return true;
        }
        i = i + 1;
    }
    false
}

/// The records of `ids`, each of which has one in `records`, are the records
/// under those ids, in order.
pub proof fn lemma_records_of_registered(ids: Seq<[u8; 32]>, records: Map<[u8; 32], MeshValidator>)
    requires
        forall|i: int| 0 <= i < ids.len() ==> records.contains_key(#[trigger] ids[i]),
    ensures
        records_of(ids, records).len() == ids.len(),
        forall|i: int| 0 <= i < ids.len() ==> #[trigger] records_of(ids, records)[i] == records[ids[i]],
    decreases ids.len(),
{
    if ids.len() > 0 {
        let init = ids.drop_last();
        assert forall|i: int| 0 <= i < init.len() implies records.contains_key(#[trigger] init[i]) by {
            assert(init[i] == ids[i]);
        }
        lemma_records_of_registered(init, records);
        assert(records.contains_key(ids[ids.len() - 1]));
    }
}

/// Keeping some ids of a list whose ids are distinct and registered keeps them
/// distinct and registered.
proof fn lemma_filter_registered(ids: Seq<[u8; 32]>, p: spec_fn([u8; 32]) -> bool, records: Map<[u8; 32], MeshValidator>)
    requires
        crate::id_map::distinct(ids),
        forall|i: int| 0 <= i < ids.len() ==> records.contains_key(#[trigger] ids[i]),
    ensures
        crate::id_map::distinct(ids.filter(p)),
        forall|i: int| 0 <= i < ids.filter(p).len() ==> records.contains_key(#[trigger] ids.filter(p)[i]),
    decreases ids.len(),
{
    if ids.len() == 0 {
        ids.lemma_filter_len(p);
    } else {
        let init = ids.drop_last();
        let x = ids.last();
        assert(init.push(x) =~= ids);
        assert forall|i: int| 0 <= i < init.len() implies records.contains_key(#[trigger] init[i]) by {
            assert(init[i] == ids[i]);
        }
        lemma_filter_registered(init, p, records);
        init.lemma_filter_push(x, p);
        let f = init.filter(p);
        assert(!f.contains(x)) by {
            if f.contains(x) {
                init.lemma_filter_contains_rev(p, x);
                let j = init.index_of(x);
                assert(ids[j] == ids[ids.len() - 1]);
            }
        }
        if p(x) {
            assert forall|a: int, b: int| 0 <= a < b < f.push(x).len() implies f.push(x)[a] != f.push(x)[b] by {
                if b == f.len() {
                    assert(f.contains(f[a]));
                }
            }
            assert forall|i: int| 0 <= i < f.push(x).len() implies records.contains_key(#[trigger] f.push(x)[i]) by {
                if i < f.len() {
                    assert(f.push(x)[i] == f[i]);
                } else {
                    assert(ids[ids.len() - 1] == x);
                }
            }
        }
    }
}

/// The ids of `ids` that `gone` does not hold, in order.
fn ids_without(ids: &Vec<[u8; 32]>, gone: &Vec<[u8; 32]>) -> (r: Vec<[u8; 32]>)
    ensures
        r@ == ids@.filter(|x: [u8; 32]| !gone@.contains(x)),
{
    let ghost keep = |x: [u8; 32]| !gone@.contains(x);
    let mut r: Vec<[u8; 32]> = Vec::new();
    let mut i: usize = 0;
    while i < ids.len()
        invariant
            i <= ids@.len(),
            keep == (|x: [u8; 32]| !gone@.contains(x)),
            r@ == ids@.take(i as int).filter(keep),
        decreases ids@.len() - i,
    {
        let id = ids[i];
        let mut found = false;
        let mut j: usize = 0;
        while j < gone.len()
            invariant
                j <= gone@.len(),
                found == (exists|t: int| 0 <= t < j && gone@[t] == id),
            decreases gone@.len() - j,
        {
            if crate::id_map::same_id(&gone[j], &id) {
                found = true;
            }
            j = j + 1;
        }
        proof {
            assert(ids@.take(i as int + 1) =~= ids@.take(i as int).push(id));
            ids@.take(i as int).lemma_filter_push(id, keep);
            assert(found == gone@.contains(id));
        }
        if !found {
            r.push(id);
        }
        i = i + 1;
    }
    proof {
        assert(ids@.take(ids@.len() as int) =~= ids@);
    }
    r
}

impl ValidatorSet {
    #[verifier::type_invariant]
    closed spec fn inv(&self) -> bool {
        &&& crate::id_map::distinct(self.active_validators@)
        &&& forall|i: int| 0 <= i < self.active_validators@.len()
            ==> self.validators@.contains_key(#[trigger] self.active_validators@[i])
    }

    /// Every set keeps these: no id is twice in the round-robin list, and each
    /// id there has a record.
    pub open spec fn active_registered(&self) -> bool {
        &&& crate::id_map::distinct(self.active())
        &&& forall|i: int| 0 <= i < self.active().len() ==> self.records().contains_key(#[trigger] self.active()[i])
    }

    /// The records of all validators, by id.
    pub closed spec fn records(&self) -> Map<[u8; 32], MeshValidator> {
        self.validators@
    }

    /// The ids of the active validators, in round-robin order.
    pub closed spec fn active(&self) -> Seq<[u8; 32]> {
        self.active_validators@
    }

    /// The current proposer index.
    pub closed spec fn proposer_index(&self) -> nat {
        self.proposer_index as nat
    }

    /// `self` is `before` after taking offline, at `now`, the active validators
    /// that have been silent for more than five minutes.
    pub open spec fn statuses_updated_from(&self, before: ValidatorSet, now: u64) -> bool {
        &&& self.records() == before.records().map_values(|v: MeshValidator| status_at(v, now))
        &&& self.active() == before.active().filter(|id: [u8; 32]| !goes_offline(before.records(), id, now))
    }

    /// `self` is `before` with `validator` registered under its id; an active
    /// validator not yet in the round-robin list also joins its end.
    pub open spec fn added_from(&self, before: ValidatorSet, validator: MeshValidator) -> bool {
        &&& self.records() == before.records().insert(validator.validator_id, validator)
        &&& self.active() == (if validator.status == ValidatorStatus::Active
            && !before.active().contains(validator.validator_id) {
            before.active().push(validator.validator_id)
        } else {
            before.active()
        })
        &&& self.proposer_index() == before.proposer_index()
    }

    /// `self` is `before` with the validator `id` marked removed and out of the
    /// round-robin list.
    pub open spec fn removed_from(&self, before: ValidatorSet, id: [u8; 32]) -> bool {
        &&& self.records() == (if before.records().contains_key(id) {
            before.records().insert(id, MeshValidator { status: ValidatorStatus::Removed, ..before.records()[id] })
        } else {
            before.records()
        })
        &&& self.active() == before.active().filter(other_than(id))
        &&& self.proposer_index() == before.proposer_index()
    }

    /// `self` is `before` with the proposer index moved one step round-robin.
    pub open spec fn rotated_from(&self, before: ValidatorSet) -> bool {
        &&& self.records() == before.records()
        &&& self.active() == before.active()
        &&& self.proposer_index() == rotated(before.proposer_index(), before.active().len())
    }

    /// Creates an empty validator set.
    pub fn new() -> (r: Self)
        ensures
            r.records() == Map::<[u8; 32], MeshValidator>::empty(),
            r.active() == Seq::<[u8; 32]>::empty(),
            r.proposer_index() == 0,
            r.active_registered(),
    {
        ValidatorSet { validators: IdMap::new(), active_validators: Vec::new(), proposer_index: 0 }
    }

    /// Registers `validator` under its id (replacing a record with that id); an
    /// active validator not yet in the round-robin list also joins its end.
    pub fn add_validator(&mut self, validator: MeshValidator)
        ensures
            final(self).added_from(*old(self), validator),
            final(self).active_registered(),
    {
        proof {
            use_type_invariant(&*self);
        }
        let validator_id = validator.validator_id;
        let active = validator.is_active();
        let mut taken = ValidatorSet::new();
        std::mem::swap(&mut taken, self);
        let ValidatorSet { validators: mut records, active_validators: mut ids, proposer_index } = taken;
        records.insert(validator_id, validator);
        if active && !holds_id(&ids, &validator_id) {
            proof {
                let s0 = ids@;
                assert forall|a: int, b: int| 0 <= a < b < s0.len() + 1 implies s0.push(validator_id)[a] != s0.push(validator_id)[b] by {
                    if b == s0.len() {
                        assert(s0.contains(s0[a]));
                    }
                }
            }
            ids.push(validator_id);
        }
        *self = ValidatorSet { validators: records, active_validators: ids, proposer_index };
        proof {
            use_type_invariant(&*self);
        }
    }

    /// Marks the validator `validator_id` removed and takes it out of the round-robin list.
    pub fn remove_validator(&mut self, validator_id: &[u8; 32])
        ensures
            final(self).removed_from(*old(self), *validator_id),
            final(self).active_registered(),
    {
        proof {
            use_type_invariant(&*self);
        }
        match self.validators.get_mut(validator_id) {
            Some(v) => {
                v.status = ValidatorStatus::Removed;
            },
            None => {},
        }
        let mut gone: Vec<[u8; 32]> = Vec::new();
        gone.push(*validator_id);
        let kept = ids_without(&self.active_validators, &gone);
        proof {
            let id = *validator_id;
            assert((|x: [u8; 32]| !gone@.contains(x)) =~= other_than(id)) by {
                assert forall|x: [u8; 32]| gone@.contains(x) == (x == id) by {
                    if x == id {
                        assert(gone@[0] == x);
                    }
                }
            }
            lemma_filter_registered(self.active_validators@, other_than(id), self.validators@);
        }
        self.active_validators = kept;
        proof {
            use_type_invariant(&*self);
        }
    }

    /// The proposer for the current round: the active validator at the proposer index.
    pub fn get_proposer(&self) -> (r: Option<[u8; 32]>)
        ensures
            r == proposer_at(self.active(), self.proposer_index()),
            self.active_registered(),
            r is None <==> self.active().len() == 0,
            r is Some ==> self.active().contains(r->0) && self.records().contains_key(r->0),
    {
        proof {
            use_type_invariant(self);
            if self.active().len() > 0 {
                let k = (self.proposer_index() % self.active().len()) as int;
                assert(self.records().contains_key(self.active()[k]));
            }
        }
        if self.active_validators.len() == 0 {
            return None;
        }
        Some(self.active_validators[self.proposer_index % self.active_validators.len()])
    }

    /// Rotates to the next proposer in round-robin order.
    pub fn rotate_proposer(&mut self)
        ensures
            final(self).rotated_from(*old(self)),
            final(self).active_registered(),
    {
        proof {
            use_type_invariant(&*self);
        }
        let count = self.active_validators.len();
        let modulus = if count > 1 { count } else { 1 };
        let r = self.proposer_index % modulus;
        proof {
            let i = self.proposer_index as int;
            let m = modulus as int;
            vstd::arithmetic::div_mod::lemma_add_mod_noop(i, 1, m);
            vstd::arithmetic::div_mod::lemma_add_mod_noop(i % m, 1, m);
            vstd::arithmetic::div_mod::lemma_mod_twice(i, m);
        }
        self.proposer_index = (r + 1) % modulus;
    }

    /// Number of active validators.
    pub fn active_count(&self) -> (r: usize)
        ensures
            r == self.active().len(),
            self.active_registered(),
    {
        proof {
            use_type_invariant(self);
        }
        self.active_validators.len()
    }

    /// The record of `validator_id`, if any.
    pub fn get_validator(&self, validator_id: &[u8; 32]) -> (r: Option<&MeshValidator>)
        ensures
            r is Some <==> self.records().contains_key(*validator_id),
            r is Some ==> *(r->0) == self.records()[*validator_id],
    {
        self.validators.get(validator_id)
    }

    /// A mutable borrow of the record of `validator_id`, if any.
    pub fn get_validator_mut(&mut self, validator_id: &[u8; 32]) -> (r: Option<&mut MeshValidator>)
        ensures
            r is Some <==> old(self).records().contains_key(*validator_id),
            r is Some ==> *(r->0) == old(self).records()[*validator_id],
            r is Some ==> final(self).records() == old(self).records().insert(*validator_id, *final(r->0)),
            r is None ==> final(self).records() == old(self).records(),
            final(self).active() == old(self).active(),
            final(self).proposer_index() == old(self).proposer_index(),
            old(self).active_registered(),
    {
        proof {
            use_type_invariant(&*self);
        }
        self.validators.get_mut(validator_id)
    }

    /// Takes offline every active validator that has been silent for more than
    /// five minutes at `now`, and drops it from the round-robin list.
    pub fn update_statuses_at(&mut self, now: u64)
        ensures
            final(self).statuses_updated_from(*old(self), now),
            final(self).records() == old(self).records().map_values(|v: MeshValidator| status_at(v, now)),
            final(self).active() == old(self).active().filter(
                |id: [u8; 32]| !goes_offline(old(self).records(), id, now),
            ),
            final(self).proposer_index() == old(self).proposer_index(),
            final(self).active_registered(),
    {
        proof {
            use_type_invariant(&*self);
        }
        let ghost old_keys = self.validators.key_seq();
        let ghost old_vals = self.validators.val_seq();
        let ghost old_records = self.records();
        let ghost f = |v: MeshValidator| status_at(v, now);
        let n = self.validators.len();
        let mut offline: Vec<[u8; 32]> = Vec::new();
        let mut i: usize = 0;
        while i < n
            invariant
                n == old_keys.len(),
                old_keys.len() == old_vals.len(),
                crate::id_map::distinct(old_keys),
                old_records == crate::id_map::keyed_map(old_keys, old_vals),
                f == (|v: MeshValidator| status_at(v, now)),
                i <= n,
                self.validators.key_seq() == old_keys,
                self.active_validators@ == old(self).active_validators@,
                crate::id_map::distinct(old(self).active_validators@),
                forall|j: int| 0 <= j < old(self).active_validators@.len()
                    ==> old_keys.contains(#[trigger] old(self).active_validators@[j]),
                self.proposer_index == old(self).proposer_index,
                self.validators.val_seq().len() == n,
                forall|j: int| 0 <= j < i ==> #[trigger] self.validators.val_seq()[j] == f(old_vals[j]),
                forall|j: int| i <= j < n ==> #[trigger] self.validators.val_seq()[j] == old_vals[j],
                forall|x: [u8; 32]| #[trigger] offline@.contains(x) <==> went_offline_before(old_keys, old_vals, i as int, x, now),
            decreases n - i,
        {
            let ghost prev = offline@;
            let id = self.validators.key_at(i);
            let v = self.validators.value_at_mut(i);
            let ghost cond = v.status == ValidatorStatus::Active && silent_at(*v, now);
            if v.is_offline_at(now) && v.status == ValidatorStatus::Active {
                v.status = ValidatorStatus::Offline;
                offline.push(id);
            }
            proof {
                assert(offline@ == (if cond { prev.push(id) } else { prev }));
                assert forall|x: [u8; 32]| #[trigger] offline@.contains(x) <==> went_offline_before(old_keys, old_vals, i + 1, x, now) by {
                    if offline@.contains(x) {
                        if cond && x == id {
                            assert(old_keys[i as int] == x);
                        } else {
                            if cond {
                                let t = offline@.index_of(x);
                                assert(prev[t] == x);
                            }
                            assert(prev.contains(x));
                            let j = choose|j: int| 0 <= j < i && old_keys[j] == x && silent_active(old_vals[j], now);
                            assert(0 <= j < i + 1 && old_keys[j] == x && silent_active(old_vals[j], now));
                        }
                    }
                    if went_offline_before(old_keys, old_vals, i + 1, x, now) {
                        let j = choose|j: int| 0 <= j < i + 1 && old_keys[j] == x && silent_active(old_vals[j], now);
                        if j < i {
                            assert(went_offline_before(old_keys, old_vals, i as int, x, now));
                            assert(prev.contains(x));
                            if cond {
                                let t = prev.index_of(x);
                                assert(offline@[t] == x);
                            }
                        } else {
                            assert(offline@[prev.len() as int] == x);
                        }
                    }
                }
            }
            i = i + 1;
        }
        proof {
            lemma_keyed_map_values(old_keys, old_vals, self.validators.val_seq(), f);
            assert forall|x: [u8; 32]| offline@.contains(x) == goes_offline(old_records, x, now) by {
                if goes_offline(old_records, x, now) {
                    let j = old_keys.index_of(x);
                    crate::id_map::lemma_index_of_distinct(old_keys, j);
                    assert(went_offline_before(old_keys, old_vals, n as int, x, now));
                }
                if offline@.contains(x) {
                    let j = choose|j: int| 0 <= j < n && old_keys[j] == x && silent_active(old_vals[j], now);
                    crate::id_map::lemma_index_of_distinct(old_keys, j);
                }
            }
        }
        let kept = ids_without(&self.active_validators, &offline);
        proof {
            let p1 = |x: [u8; 32]| !offline@.contains(x);
            let p2 = |id: [u8; 32]| !goes_offline(old_records, id, now);
            assert(p1 =~= p2);
            assert(kept@ == self.active_validators@.filter(p2));
            lemma_filter_registered(self.active_validators@, p2, self.validators@);
        }
        self.active_validators = kept;
        proof {
            use_type_invariant(&*self);
        }
    }

    /// Takes offline every active validator that has been silent for more than
    /// five minutes by the system clock.
    pub fn update_statuses(&mut self)
        ensures
            exists|now: u64| #[trigger] final(self).statuses_updated_from(*old(self), now),
            final(self).proposer_index() == old(self).proposer_index(),
            final(self).active_registered(),
    {
        let now = unix_time_secs();
        self.update_statuses_at(now);
    }

    /// The records of the active validators, in round-robin order.
    pub fn get_active_validators(&self) -> (r: Vec<&MeshValidator>)
        ensures
            r@.len() == records_of(self.active(), self.records()).len(),
            forall|i: int| 0 <= i < r@.len() ==> *r@[i] == records_of(self.active(), self.records())[i],
            self.active_registered(),
            r@.len() == self.active().len(),
            forall|i: int| 0 <= i < r@.len() ==> *r@[i] == self.records()[#[trigger] self.active()[i]],
    {
        proof {
            use_type_invariant(self);
            lemma_records_of_registered(self.active(), self.records());
        }
        let mut r: Vec<&MeshValidator> = Vec::new();
        let mut i: usize = 0;
        while i < self.active_validators.len()
            invariant
                i <= self.active_validators@.len(),
                r@.len() == records_of(self.active_validators@.take(i as int), self.validators@).len(),
                forall|j: int| 0 <= j < r@.len() ==>
                    *r@[j] == records_of(self.active_validators@.take(i as int), self.validators@)[j],
            decreases self.active_validators@.len() - i,
        {
            assert(self.active_validators@.take(i as int + 1).drop_last() =~= self.active_validators@.take(i as int));
            match self.validators.get(&self.active_validators[i]) {
                Some(v) => {
                    r.push(v);
                },
                None => {},
            }
            i = i + 1;
        }
        assert(self.active_validators@.take(self.active_validators@.len() as int) =~= self.active_validators@);
        r
    }
}

impl Clone for ValidatorSet {
    /// The same validators, round-robin list and proposer index.
    fn clone(&self) -> (r: Self)
        ensures
            r.active() == self.active(),
            r.proposer_index() == self.proposer_index(),
            r.records().dom() == self.records().dom(),
            forall|k: [u8; 32]| #[trigger] self.records().contains_key(k) ==> cloned::<MeshValidator>(self.records()[k], r.records()[k]),
    {
        proof {
            use_type_invariant(self);
        }
        ValidatorSet {
            validators: self.validators.clone(),
            active_validators: crate::id_map::copy_ids(&self.active_validators),
            proposer_index: self.proposer_index,
        }
    }
}

impl Default for ValidatorSet {
    fn default() -> (r: Self)
        ensures
            r.records() == Map::<[u8; 32], MeshValidator>::empty(),
            r.active() == Seq::<[u8; 32]>::empty(),
            r.proposer_index() == 0,
            r.active_registered(),
    {
        Self::new()
    }
}

} // verus!
