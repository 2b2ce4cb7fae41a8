//! Attestations and the structural gate that every mutating operation passes
//! them through.

use vstd::prelude::*;

verus! {

/// How far into the future, in seconds, an attestation may be dated.
pub const FUTURE_TOLERANCE: u64 = 300;

/// An externally produced record that asserts an off-ledger fact.
#[derive(Clone, Debug, PartialEq)]
pub struct ZkTLSProof {
    pub id: String,
    pub proof_type: String,
    pub signature: String,
    pub timestamp: u64,
    pub data_hash: String,
    pub verified: bool,
}

/// The structural gate: the signature and the data hash are both present,
/// and the attestation is dated no later than [`FUTURE_TOLERANCE`] seconds
/// after `now`. There is no lower bound on its date, and neither the
/// signature nor the hash is looked into.
pub open spec fn proof_is_valid(proof: ZkTLSProof, now: u64) -> bool {
    &&& proof.signature@.len() > 0
    &&& proof.data_hash@.len() > 0
    &&& proof.timestamp <= now + FUTURE_TOLERANCE
}

/// Decides [`proof_is_valid`]. A failed attestation is reported as `false`,
/// never as an error. The latest admissible date is formed in a wider
/// type, so no `now` overflows.
pub fn validate_zktls_proof(proof: &ZkTLSProof, now: u64) -> (ok: bool)
    ensures
        ok == proof_is_valid(*proof, now),
{
    if proof.signature.as_str().is_empty() || proof.data_hash.as_str().is_empty() {
        return false;
    }
    let horizon: u128 = now as u128 + FUTURE_TOLERANCE as u128;
    proof.timestamp as u128 <= horizon
}

/// An attestation with an empty signature, an empty data hash, or a date
/// more than 300 seconds after `now` is not valid.
pub proof fn lemma_malformed_proof_is_invalid(proof: ZkTLSProof, now: u64)
    requires
        proof.signature@.len() == 0 || proof.data_hash@.len() == 0 || proof.timestamp > now + 300,
    ensures
        !proof_is_valid(proof, now),
{
}

} // verus!
