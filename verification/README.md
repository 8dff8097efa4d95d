# lib_consensus

Consensus and governance logic for local mesh blockchains, verified with Verus.

- `src/mesh_consensus/`: a round-based BFT engine (propose, prevote, precommit,
  commit) with a 67% approval threshold, round-robin proposers and validator
  bookkeeping. `laws.rs` holds the proved properties that span operations
  (proposer rotation cycles, a validator is counted once, quorums intersect,
  phase order, reputation bounds).
- `src/dao/`: DAO governance: proposals, one vote per citizen, tallies, expiry
  processing and treasury allocation, plus the byte layouts that are hashed and
  the reading of treasury amounts from proposal descriptions. `laws.rs` holds
  the proved properties (single vote, consistent tallies, conserved funds, every
  expired proposal decided).
- `src/id_map.rs`: the map keyed by 32-byte ids used throughout.
- `src/clock.rs`: the only contact with the system clocks; functions that need a
  time take it as an argument in their `_at` form.

Digests are computed by a hasher that the caller supplies (in the ZHTP stack,
BLAKE3). `app/` holds serde forms of the public types, the floating-point
percentages and the error messages.
