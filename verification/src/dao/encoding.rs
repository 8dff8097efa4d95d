//! Byte layouts that the DAO hashes and signs.

use crate::dao::dao_types::{
    choice_code, DaoVoteChoice, PublicKey, Signature, SignatureAlgorithm,
};
use vstd::prelude::*;
use vstd::utf8::encode_utf8;

verus! {

/// The `width` lowest bytes of `n`, least significant first.
pub open spec fn le_bytes(n: nat, width: nat) -> Seq<u8>
    decreases width,
{
    if width == 0 {
        Seq::empty()
    } else {
        seq![(n % 256) as u8] + le_bytes(n / 256, (width - 1) as nat)
    }
}

/// Little-endian bytes of a `u64`.
pub fn u64_le_bytes(n: u64) -> (r: Vec<u8>)
    ensures
        r@ == le_bytes(n as nat, 8),
{
    let mut out: Vec<u8> = Vec::new();
    let mut v: u64 = n;
    let mut i: usize = 0;
    while i < 8
        invariant
            i <= 8,
            out@ + le_bytes(v as nat, (8 - i) as nat) == le_bytes(n as nat, 8),
        decreases 8 - i,
    {
        proof {
            assert(le_bytes(v as nat, (8 - i) as nat) == seq![(v as nat % 256) as u8] + le_bytes(v as nat / 256, (8 - i - 1) as nat));
        }
        out.push((v % 256) as u8);
        proof {
            assert(out@ + le_bytes((v / 256) as nat, (8 - i - 1) as nat) =~= le_bytes(n as nat, 8));
        }
        v = v / 256;
        i = i + 1;
    }
    proof {
        assert(out@ + le_bytes(v as nat, 0) =~= out@);
    }
    out
}

/// Little-endian bytes of a `u128`.
pub fn u128_le_bytes(n: u128) -> (r: Vec<u8>)
    ensures
        r@ == le_bytes(n as nat, 16),
{
    let mut out: Vec<u8> = Vec::new();
    let mut v: u128 = n;
    let mut i: usize = 0;
    while i < 16
        invariant
            i <= 16,
            out@ + le_bytes(v as nat, (16 - i) as nat) == le_bytes(n as nat, 16),
        decreases 16 - i,
    {
        proof {
            assert(le_bytes(v as nat, (16 - i) as nat) == seq![(v as nat % 256) as u8] + le_bytes(v as nat / 256, (16 - i - 1) as nat));
        }
        out.push((v % 256) as u8);
        proof {
            assert(out@ + le_bytes((v / 256) as nat, (16 - i - 1) as nat) =~= le_bytes(n as nat, 16));
        }
        v = v / 256;
        i = i + 1;
    }
    proof {
        assert(out@ + le_bytes(v as nat, 0) =~= out@);
    }
    out
}

/// Appends the bytes of `b` to `out`.
fn append_bytes(out: &mut Vec<u8>, b: &[u8])
    ensures
        final(out)@ == old(out)@ + b@,
{
    let mut i: usize = 0;
    while i < b.len()
        invariant
            i <= b@.len(),
            out@ == old(out)@ + b@.take(i as int),
        decreases b@.len() - i,
    {
        out.push(b[i]);
        proof {
            assert(b@.take(i as int + 1) =~= b@.take(i as int).push(b@[i as int]));
        }
        i = i + 1;
    }
    proof {
        assert(b@.take(b@.len() as int) =~= b@);
    }
}

/// Appends the UTF-8 encoding of `s` to `out`.
fn append_text(out: &mut Vec<u8>, s: &String)
    ensures
        final(out)@ == old(out)@ + encode_utf8(s@),
{
    let b = s.as_str().as_bytes();
    append_bytes(out, b);
}

/// What a proposal id is the digest of: the proposer, the title, the
/// description, and the creation time in nanoseconds.
pub open spec fn proposal_id_layout(proposer: [u8; 32], title: Seq<char>, description: Seq<char>, nanos: u128) -> Seq<u8> {
    proposer@ + encode_utf8(title) + encode_utf8(description) + le_bytes(nanos as nat, 16)
}

/// What a vote id is the digest of: the proposal, the voter, the choice code and
/// the voting time.
pub open spec fn vote_id_layout(proposal_id: [u8; 32], voter: [u8; 32], choice: DaoVoteChoice, time: u64) -> Seq<u8> {
    proposal_id@ + voter@ + seq![choice_code(choice)] + le_bytes(time as nat, 8)
}

/// What a vote signature is the digest of: the voter, the proposal and the choice code.
pub open spec fn vote_signature_layout(voter: [u8; 32], proposal_id: [u8; 32], choice: DaoVoteChoice) -> Seq<u8> {
    voter@ + proposal_id@ + seq![choice_code(choice)]
}

/// What a treasury allocation id is the digest of: the proposal and the amount.
pub open spec fn allocation_id_layout(proposal_id: [u8; 32], amount: u64) -> Seq<u8> {
    proposal_id@ + le_bytes(amount as nat, 8)
}

/// What the bootstrap deposit id is the digest of: the ASCII text `bootstrap`.
pub open spec fn bootstrap_layout() -> Seq<u8> {
    seq![98u8, 111u8, 111u8, 116u8, 115u8, 116u8, 114u8, 97u8, 112u8]
}

/// The bytes of a 32-byte identifier.
fn id_bytes(id: &[u8; 32]) -> (r: Vec<u8>)
    ensures
        r@ == id@,
{
    let mut out: Vec<u8> = Vec::new();
    let mut i: usize = 0;
    while i < 32
        invariant
            i <= 32,
            out@ == id@.take(i as int),
        decreases 32 - i,
    {
        out.push(id[i]);
        proof {
            assert(id@.take(i as int + 1) =~= id@.take(i as int).push(id@[i as int]));
        }
        i = i + 1;
    }
    proof {
        assert(id@.take(32) =~= id@);
    }
    out
}

/// The bytes whose digest identifies a new proposal.
pub fn proposal_id_preimage(proposer: &[u8; 32], title: &String, description: &String, nanos: u128) -> (r: Vec<u8>)
    ensures
        r@ == proposal_id_layout(*proposer, title@, description@, nanos),
{
    let mut out = id_bytes(proposer);
    append_text(&mut out, title);
    append_text(&mut out, description);
    let t = u128_le_bytes(nanos);
    append_bytes(&mut out, t.as_slice());
    out
}

/// The bytes whose digest identifies a vote.
pub fn vote_id_preimage(proposal_id: &[u8; 32], voter: &[u8; 32], choice: &DaoVoteChoice, time: u64) -> (r: Vec<u8>)
    ensures
        r@ == vote_id_layout(*proposal_id, *voter, *choice, time),
{
    let mut out = id_bytes(proposal_id);
    let v = id_bytes(voter);
    append_bytes(&mut out, v.as_slice());
    out.push(choice.to_u8());
    let t = u64_le_bytes(time);
    append_bytes(&mut out, t.as_slice());
    proof {
        assert(out@ =~= vote_id_layout(*proposal_id, *voter, *choice, time));
    }
    out
}

/// The bytes whose digest signs a vote.
pub fn vote_signature_preimage(voter: &[u8; 32], proposal_id: &[u8; 32], choice: &DaoVoteChoice) -> (r: Vec<u8>)
    ensures
        r@ == vote_signature_layout(*voter, *proposal_id, *choice),
{
    let mut out = id_bytes(voter);
    let p = id_bytes(proposal_id);
    append_bytes(&mut out, p.as_slice());
    out.push(choice.to_u8());
    proof {
        assert(out@ =~= vote_signature_layout(*voter, *proposal_id, *choice));
    }
    out
}

/// The bytes whose digest identifies a treasury allocation.
pub fn allocation_id_preimage(proposal_id: &[u8; 32], amount: u64) -> (r: Vec<u8>)
    ensures
        r@ == allocation_id_layout(*proposal_id, amount),
{
    let mut out = id_bytes(proposal_id);
    let a = u64_le_bytes(amount);
    append_bytes(&mut out, a.as_slice());
    out
}

/// The bytes whose digest identifies the bootstrap deposit.
pub fn bootstrap_preimage() -> (r: Vec<u8>)
    ensures
        r@ == bootstrap_layout(),
{
    let mut out: Vec<u8> = Vec::new();
    out.push(98u8);
    out.push(111u8);
    out.push(111u8);
    out.push(116u8);
    out.push(115u8);
    out.push(116u8);
    out.push(114u8);
    out.push(97u8);
    out.push(112u8);
    proof {
        assert(out@ =~= bootstrap_layout());
    }
    out
}

/// The signature of a vote whose signed bytes have digest `digest`, made at
/// `timestamp`: the digest is the signature, both public keys and the key id.
pub open spec fn signature_of_digest(s: Signature, digest: [u8; 32], timestamp: u64) -> bool {
    &&& s.signature@ == digest@
    &&& s.public_key.dilithium_pk@ == digest@
    &&& s.public_key.kyber_pk@ == digest@
    &&& s.public_key.key_id == digest
    &&& s.algorithm == SignatureAlgorithm::Dilithium2
    &&& s.timestamp == timestamp
}

/// Builds the signature of a vote from the digest of its signed bytes.
pub fn signature_from_digest(digest: &[u8; 32], timestamp: u64) -> (s: Signature)
    ensures
        signature_of_digest(s, *digest, timestamp),
{
    Signature {
        signature: id_bytes(digest),
        public_key: PublicKey {
            dilithium_pk: id_bytes(digest),
            kyber_pk: id_bytes(digest),
            key_id: *digest,
        },
        algorithm: SignatureAlgorithm::Dilithium2,
        timestamp,
    }
}

} // verus!
