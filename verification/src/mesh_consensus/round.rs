//! Round Manager
//!
//! Manages consensus rounds, timeouts, and phase transitions.

use crate::clock::{elapsed_millis, instant_now, unix_time_secs};
use crate::mesh_consensus::config::{
    COMMIT_TIMEOUT_MS, PRECOMMIT_TIMEOUT_MS, PREVOTE_TIMEOUT_MS, PROPOSAL_TIMEOUT_MS,
};
use crate::mesh_consensus::types::{
    approval_count, next_phase, reaches_threshold, ConsensusRound, RoundPhase,
};
use std::time::Instant;
use vstd::prelude::*;

verus! {

/// How long phase `p` may last, in milliseconds; the complete phase never times out.
pub open spec fn phase_timeout_ms(p: RoundPhase) -> Option<u64> {
    match p {
        RoundPhase::Propose => Some(PROPOSAL_TIMEOUT_MS),
        RoundPhase::Prevote => Some(PREVOTE_TIMEOUT_MS),
        RoundPhase::Precommit => Some(PRECOMMIT_TIMEOUT_MS),
        RoundPhase::Commit => Some(COMMIT_TIMEOUT_MS),
        RoundPhase::Complete => None,
    }
}

/// Phase `p` has timed out after `elapsed_ms` milliseconds.
pub open spec fn phase_timed_out(p: RoundPhase, elapsed_ms: u128) -> bool {
    match phase_timeout_ms(p) {
        Some(t) => elapsed_ms >= t,
        None => false,
    }
}

/// Whether `round` may move to its next phase, with `total_validators`
/// validators and `elapsed_ms` milliseconds spent in the current phase: a
/// proposal ends the propose phase; 67%+ approving prevotes (precommits), or
/// the timeout, end the prevote (precommit) phase; the timeout ends the commit
/// phase; a complete round stays complete.
pub open spec fn may_advance(round: ConsensusRound, total_validators: nat, elapsed_ms: u128) -> bool {
    match round.phase {
        RoundPhase::Propose => round.proposal is Some,
        RoundPhase::Prevote => reaches_threshold(approval_count(round.prevotes@), total_validators)
            || phase_timed_out(round.phase, elapsed_ms),
        RoundPhase::Precommit => reaches_threshold(approval_count(round.precommits@), total_validators)
            || phase_timed_out(round.phase, elapsed_ms),
        RoundPhase::Commit => phase_timed_out(round.phase, elapsed_ms),
        RoundPhase::Complete => false,
    }
}

/// `round` after one decision to advance or not.
pub open spec fn advanced_if(round: ConsensusRound, advance: bool) -> ConsensusRound {
    if advance {
        ConsensusRound { phase: next_phase(round.phase), ..round }
    } else {
        round
    }
}

/// Manages a single consensus round.
#[derive(Debug)]
pub struct RoundManager {
    /// Current round
    round: ConsensusRound,
    /// When current phase started
    phase_start: Instant,
    /// Total validators in mesh
    total_validators: usize,
}

impl RoundManager {
    /// The managed round.
    pub closed spec fn round_state(&self) -> ConsensusRound {
        self.round
    }

    /// Total validators in the mesh.
    pub closed spec fn total_validators(&self) -> nat {
        self.total_validators as nat
    }

    /// When the current phase started, on the monotonic clock.
    pub closed spec fn phase_start_view(&self) -> Instant {
        self.phase_start
    }

    /// Creates a manager for a fresh round that started at `now` (seconds since
    /// the Unix epoch), its propose phase starting at `phase_start`.
    pub fn new_at(
        height: u64,
        round: u64,
        proposer: [u8; 32],
        total_validators: usize,
        now: u64,
        phase_start: Instant,
    ) -> (r: Self)
        ensures
            r.round_state().is_fresh(height, round, proposer),
            r.round_state().start_time == now,
            r.total_validators() == total_validators,
            r.phase_start_view() == phase_start,
    {
        RoundManager { round: ConsensusRound::new_at(height, round, proposer, now), phase_start, total_validators }
    }

    /// Creates a manager for a fresh round, its propose phase starting now.
    pub fn new(height: u64, round: u64, proposer: [u8; 32], total_validators: usize) -> (r: Self)
        ensures
            r.round_state().is_fresh(height, round, proposer),
            r.total_validators() == total_validators,
    {
        Self::new_at(height, round, proposer, total_validators, unix_time_secs(), instant_now())
    }

    /// The current phase.
    pub fn current_phase(&self) -> (r: RoundPhase)
        ensures
            r == self.round_state().phase,
    {
        self.round.phase
    }

    /// The current round.
    pub fn get_round(&self) -> (r: &ConsensusRound)
        ensures
            *r == self.round_state(),
    {
        &self.round
    }

    /// A mutable borrow of the current round.
    pub fn get_round_mut(&mut self) -> (r: &mut ConsensusRound)
        ensures
            *r == old(self).round_state(),
            final(self).round_state() == *final(r),
            final(self).total_validators() == old(self).total_validators(),
            final(self).phase_start_view() == old(self).phase_start_view(),
    {
        &mut self.round
    }

    /// Whether the current phase has timed out after `elapsed_ms` milliseconds.
    pub fn is_phase_timeout_at(&self, elapsed_ms: u128) -> (r: bool)
        ensures
            r == phase_timed_out(self.round_state().phase, elapsed_ms),
    {
        let timeout: u64 = match self.round.phase {
            RoundPhase::Propose => PROPOSAL_TIMEOUT_MS,
            RoundPhase::Prevote => PREVOTE_TIMEOUT_MS,
            RoundPhase::Precommit => PRECOMMIT_TIMEOUT_MS,
            RoundPhase::Commit => COMMIT_TIMEOUT_MS,
            RoundPhase::Complete => {
                return false;
            },
        };
        elapsed_ms >= timeout as u128
    }

    /// Milliseconds spent in the current phase, by the monotonic clock.
    pub fn phase_elapsed_ms(&self) -> (r: u128) {
        elapsed_millis(&self.phase_start)
    }

    /// Whether the current phase has timed out, by the monotonic clock.
    pub fn is_phase_timeout(&self) -> (r: bool)
        ensures
            exists|elapsed_ms: u128| r == phase_timed_out(self.round_state().phase, elapsed_ms),
            self.round_state().phase == RoundPhase::Complete ==> !r,
    {
        let elapsed = elapsed_millis(&self.phase_start);
        self.is_phase_timeout_at(elapsed)
    }

    /// Decides, with `elapsed_ms` milliseconds spent in the current phase,
    /// whether the round moves to its next phase, and moves it if so.
    pub fn try_advance_phase_at(&mut self, elapsed_ms: u128) -> (r: bool)
        ensures
            r == may_advance(old(self).round_state(), old(self).total_validators(), elapsed_ms),
            final(self).round_state() == advanced_if(old(self).round_state(), r),
            final(self).total_validators() == old(self).total_validators(),
            final(self).phase_start_view() == old(self).phase_start_view(),
    {
        let can_advance = match self.round.phase {
            RoundPhase::Propose => self.round.proposal.is_some(),
            RoundPhase::Prevote => self.round.has_prevote_consensus(self.total_validators)
                || self.is_phase_timeout_at(elapsed_ms),
            RoundPhase::Precommit => self.round.has_precommit_consensus(self.total_validators)
                || self.is_phase_timeout_at(elapsed_ms),
            RoundPhase::Commit => self.is_phase_timeout_at(elapsed_ms),
            RoundPhase::Complete => {
                return false;
            },
        };
        if can_advance {
            self.round.advance_phase();
            true
        } else {
            false
        }
    }

    /// Decides, with `elapsed_ms` milliseconds spent in the current phase,
    /// whether the round moves to its next phase; on a move the next phase starts
    /// at `restart`, else the phase timer is left as it is.
    pub fn try_advance_phase_restarting_at(&mut self, elapsed_ms: u128, restart: Instant) -> (r: bool)
        ensures
            r == may_advance(old(self).round_state(), old(self).total_validators(), elapsed_ms),
            final(self).round_state() == advanced_if(old(self).round_state(), r),
            final(self).total_validators() == old(self).total_validators(),
            final(self).phase_start_view() == (if r { restart } else { old(self).phase_start_view() }),
    {
        let advanced = self.try_advance_phase_at(elapsed_ms);
        if advanced {
            self.reset_phase_timer_at(restart);
        }
        advanced
    }

    /// Moves the round to its next phase if its conditions are met, the timeouts
    /// read on the monotonic clock; the phase timer restarts on a move and is
    /// left as it is otherwise.
    pub fn try_advance_phase(&mut self) -> (r: bool)
        ensures
            exists|elapsed_ms: u128| r == may_advance(old(self).round_state(), old(self).total_validators(), elapsed_ms),
            final(self).round_state() == advanced_if(old(self).round_state(), r),
            final(self).total_validators() == old(self).total_validators(),
            !r ==> final(self).phase_start_view() == old(self).phase_start_view(),
    {
        let elapsed = elapsed_millis(&self.phase_start);
        self.try_advance_phase_restarting_at(elapsed, instant_now())
    }

    /// Whether the round has reached consensus.
    pub fn has_consensus(&self) -> (r: bool)
        ensures
            r == self.round_state().consensus_reached,
    {
        self.round.consensus_reached
    }

    /// Marks the round as having reached consensus.
    pub fn mark_consensus_reached(&mut self)
        ensures
            final(self).round_state() == (ConsensusRound { consensus_reached: true, ..old(self).round_state() }),
            final(self).total_validators() == old(self).total_validators(),
            final(self).phase_start_view() == old(self).phase_start_view(),
    {
        self.round.consensus_reached = true;
    }

    /// Restarts the phase timer at `start`.
    pub fn reset_phase_timer_at(&mut self, start: Instant)
        ensures
            final(self).round_state() == old(self).round_state(),
            final(self).total_validators() == old(self).total_validators(),
            final(self).phase_start_view() == start,
    {
        self.phase_start = start;
    }

    /// Restarts the phase timer now, by the monotonic clock (useful when
    /// receiving late messages).
    pub fn reset_phase_timer(&mut self)
        ensures
            final(self).round_state() == old(self).round_state(),
            final(self).total_validators() == old(self).total_validators(),
    {
        self.reset_phase_timer_at(instant_now());
    }
}

} // verus!
