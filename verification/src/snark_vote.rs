//! Ballots under the circuit-argument strategy.
//!
//! The validity statement is the exact polynomial identity of `circuit`,
//! proved with a pairing-based argument over a circuit-specific key pair
//! from a one-time trusted setup. Proof generation needs the constraint
//! system embedding and runs in the demonstration driver; the ballot itself
//! carries only the canonical byte encodings of the proof and of its public
//! inputs, and verification is called from here.

use ark_serialize::CanonicalDeserialize;
use ark_snark::SNARK;
use vstd::prelude::*;

use crate::voter_registration::Party;

verus! {

/// Whether `proof` is a valid circuit argument for the public inputs
/// `(nullifier, commitment)` under the verifying key `vk` (all in their
/// canonical byte encodings): the proved witness satisfies the circuit's
/// polynomial identity, bound to exactly this nullifier and commitment.
pub uninterp spec fn groth16_verifies(
    vk: Seq<u8>,
    nullifier: Seq<u8>,
    commitment: Seq<u8>,
    proof: Seq<u8>,
) -> bool;

/// Relies on `ark_groth16::Groth16::<Bls12_381>::verify` after canonical
/// deserialization of the key, the two public inputs and the proof: a
/// deterministic pairing-equation check, so the outcome is a function of
/// the serialized inputs alone. Malformed bytes or a failing check yield
/// `false`, without revealing the cause.
#[verifier::external_body]
fn groth16_verify_bytes(
    vk: &Vec<u8>,
    nullifier: &Vec<u8>,
    commitment: &Vec<u8>,
    proof: &Vec<u8>,
) -> (r: bool)
    ensures
        r == groth16_verifies(vk@, nullifier@, commitment@, proof@),
{
    let Ok(key) = ark_groth16::VerifyingKey::<ark_bls12_381::Bls12_381>::deserialize_compressed(
        vk.as_slice(),
    ) else { return false };
    let Ok(n) = ark_bls12_381::Fr::deserialize_compressed(nullifier.as_slice()) else {
        return false
    };
    let Ok(c) = ark_bls12_381::Fr::deserialize_compressed(commitment.as_slice()) else {
        return false
    };
    let Ok(p) = ark_groth16::Proof::<ark_bls12_381::Bls12_381>::deserialize_compressed(
        proof.as_slice(),
    ) else { return false };
    ark_groth16::Groth16::<ark_bls12_381::Bls12_381>::verify(&key, &[n, c], &p).unwrap_or(false)
}

/// A ballot under the circuit-argument strategy. The nullifier and the
/// blinding commitment are the circuit's public inputs, carried as
/// canonical field-element bytes; the proof is a compressed pairing-based
/// argument.
pub struct SnarkVote {
    pub party: u64,
    pub nullifier: Vec<u8>,
    pub proof: Vec<u8>,
    pub commitment: Vec<u8>,
    pub proof_size: usize,
    pub gen_time: u128,
    pub verify_time: u128,
}

impl SnarkVote {
    /// Whether this ballot's proof is valid for its public inputs under the
    /// verifying key `vk`.
    pub open spec fn valid_for(self, vk: Seq<u8>) -> bool {
        groth16_verifies(vk, self.nullifier@, self.commitment@, self.proof@)
    }

    /// Assembles a ballot from an already-generated proof over the public
    /// inputs `(nullifier, commitment)`. The proof generation itself runs
    /// in the demonstration driver, against the shared proving key.
    pub fn new(
        party: Party,
        nullifier: Vec<u8>,
        commitment: Vec<u8>,
        proof: Vec<u8>,
        gen_time: u128,
    ) -> (v: SnarkVote)
        ensures
            v.party == party.code(),
            v.party <= 3,
            v.nullifier@ == nullifier@,
            v.commitment@ == commitment@,
            v.proof@ == proof@,
            v.proof_size == proof@.len(),
            v.gen_time == gen_time,
            v.verify_time == 0,
    {
        let proof_size = proof.len();
        SnarkVote {
            party: party.as_u64(),
            nullifier,
            proof,
            commitment,
            proof_size,
            gen_time,
            verify_time: 0,
        }
    }

    /// Checks this ballot's proof against its public inputs under `vk`;
    /// records the time taken, touching nothing else. Returns `false` on
    /// any cryptographic check failure or malformed proof.
    pub fn verify(&mut self, vk: &Vec<u8>) -> (r: bool)
        ensures
            r == old(self).valid_for(vk@),
            final(self).party == old(self).party,
            final(self).nullifier == old(self).nullifier,
            final(self).proof == old(self).proof,
            final(self).commitment == old(self).commitment,
            final(self).proof_size == old(self).proof_size,
            final(self).gen_time == old(self).gen_time,
    {
        let start = crate::vote_proof::instant_now();
        let result = groth16_verify_bytes(vk, &self.nullifier, &self.commitment, &self.proof);
        self.verify_time = crate::vote_proof::elapsed_nanos(&start);
        result
    }
}

} // verus!
