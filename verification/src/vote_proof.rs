//! Ballot encoding and the range-argument validity proof.
//!
//! A ballot commits to its option code under a fresh random blinding factor
//! and carries an aggregated 8-bit range argument that the committed value
//! lies in `[0, 2^8)`. This deliberately over-approximates the valid domain
//! `{0, 1, 2, 3}`: a proof for a value in `[4, 255]` also verifies. The
//! circuit-argument strategy (see `circuit`) characterizes the domain
//! exactly; this one trades that tightness for setup-free proofs.

use vstd::prelude::*;

use crate::voter_registration::Party;

verus! {

#[verifier::external_type_specification]
#[verifier::external_body]
pub struct ExBulletproofGens(bulletproofs::BulletproofGens);

#[verifier::external_type_specification]
#[verifier::external_body]
pub struct ExPedersenGens(bulletproofs::PedersenGens);

/// The shared, read-only public parameters of the range-argument strategy.
///
/// Every value of this type holds the same generator sets — the Bulletproof
/// generators for bit size 8 and one party, and the default Pedersen
/// generators — because the fields are private and `new` is the only
/// constructor. The trusted contracts below lean on that: with the
/// generators fixed, proving and verifying are functions of the remaining
/// arguments.
pub struct PublicParams {
    bp_gens: bulletproofs::BulletproofGens,
    pc_gens: bulletproofs::PedersenGens,
}

/// Relies on `bulletproofs::BulletproofGens::new(8, 1)`: the deterministic
/// generator set for single 8-bit range proofs.
#[verifier::external_body]
fn make_bp_gens() -> (r: bulletproofs::BulletproofGens) {
    bulletproofs::BulletproofGens::new(8, 1)
}

/// Relies on `bulletproofs::PedersenGens::default()`: the deterministic
/// default Pedersen commitment generators.
#[verifier::external_body]
fn make_pc_gens() -> (r: bulletproofs::PedersenGens) {
    bulletproofs::PedersenGens::default()
}

impl PublicParams {
    /// Creates the shared public parameters; fixed before any proof is
    /// produced and immutable thereafter.
    pub fn new() -> (r: PublicParams) {
        PublicParams { bp_gens: make_bp_gens(), pc_gens: make_pc_gens() }
    }
}

/// Whether `proof` is a valid 8-bit range argument for the Pedersen
/// commitment `commitment` (both in their canonical byte encodings) under
/// the fixed public parameters: the committed value lies in `[0, 2^8)`.
pub uninterp spec fn range_verifies(proof: Seq<u8>, commitment: Seq<u8>) -> bool;

/// Relies on `bulletproofs::RangeProof::prove_single` with bit size 8 over
/// the fixed generator sets, on a fresh transcript, with a freshly drawn
/// random blinding scalar; the proof and commitment are returned in their
/// canonical byte encodings (`RangeProof::to_bytes`,
/// `CompressedRistretto::to_bytes`). With these generators every explicit
/// failure path of the prover is excluded, so proving always succeeds (the
/// prover's rejection of an all-zero transcript challenge, of probability
/// about 2^-252, is idealized away like the verifier's batching
/// randomness), and a proof produced for a value below 2^8 verifies
/// (completeness, promised for every blinding factor and transcript run).
#[verifier::external_body]
fn bp_prove(value: u64, params: &PublicParams) -> (r: Option<(Vec<u8>, Vec<u8>)>)
    ensures
        r is Some,
        value < 256 ==> (r matches Some(pc) ==> range_verifies(pc.0@, pc.1@)),
        r matches Some(pc) ==> pc.1@.len() == 32,
{
    let blinding = curve25519_dalek_ng::scalar::Scalar::random(&mut rand::rngs::OsRng);
    let mut transcript = merlin::Transcript::new(b"VoteProof");
    match bulletproofs::RangeProof::prove_single(
        &params.bp_gens,
        &params.pc_gens,
        &mut transcript,
        value,
        &blinding,
        8,
    ) {
        Ok((proof, commitment)) => Some((proof.to_bytes(), commitment.to_bytes().to_vec())),
        Err(_) => None,
    }
}

/// Relies on `bulletproofs::RangeProof::verify_single` with bit size 8 over
/// the fixed generator sets, after `RangeProof::from_bytes` and a 32-byte
/// conversion of the commitment; malformed bytes and failed checks yield
/// `false`. The verification equation decides validity of the
/// (proof, commitment) pair; its internal batching randomness only affects
/// the negligible soundness error, which is idealized away here, so the
/// outcome is treated as a function of the bytes alone.
#[verifier::external_body]
fn bp_verify(proof: &Vec<u8>, commitment: &Vec<u8>, params: &PublicParams) -> (r: bool)
    ensures
        r == range_verifies(proof@, commitment@),
{
    let parsed = match bulletproofs::RangeProof::from_bytes(proof.as_slice()) {
        Ok(p) => p,
        Err(_) => return false,
    };
    let arr: [u8; 32] = match commitment.as_slice().try_into() {
        Ok(a) => a,
        Err(_) => return false,
    };
    let point = curve25519_dalek_ng::ristretto::CompressedRistretto(arr);
    let mut transcript = merlin::Transcript::new(b"VoteProof");
    parsed.verify_single(&params.bp_gens, &params.pc_gens, &mut transcript, &point, 8).is_ok()
}

#[verifier::external_type_specification]
#[verifier::external_body]
pub struct ExInstant(std::time::Instant);

/// Relies on `std::time::Instant::now`: an opaque timestamp, used only for
/// the observational timing counters.
#[verifier::external_body]
pub(crate) fn instant_now() -> (r: std::time::Instant) {
    std::time::Instant::now()
}

/// Relies on `std::time::Instant::elapsed` and `Duration::as_nanos`: the
/// nanoseconds since `start` was taken. Nothing is promised of a clock
/// reading.
#[verifier::external_body]
pub(crate) fn elapsed_nanos(start: &std::time::Instant) -> (r: u128) {
    start.elapsed().as_nanos()
}

/// A ballot under the range-argument strategy: the revealed-on-tally option,
/// the voter's nullifier, the commitment to the option code, and the range
/// proof, plus observational sizing/timing metadata.
pub struct Vote {
    pub party: Party,
    pub nullifier: Vec<u8>,
    pub proof: Vec<u8>,
    pub commitment: Vec<u8>,
    pub proof_size: usize,
    pub gen_time: u128,
    pub verify_time: u128,
}

impl Vote {
    /// Whether this ballot's range proof is valid for its commitment.
    pub open spec fn valid(self) -> bool {
        range_verifies(self.proof@, self.commitment@)
    }

    /// Builds a ballot for `party`: commits to the option code under a fresh
    /// blinding factor and proves the committed value lies in `[0, 2^8)`.
    /// Honest construction always succeeds and always yields a ballot whose
    /// proof verifies, since every option code is below 2^8.
    pub fn new(party: Party, nullifier: Vec<u8>, params: &PublicParams) -> (r: Option<Vote>)
        ensures
            r is Some,
            r matches Some(v) ==> {
                &&& v.valid()
                &&& v.party == party
                &&& v.nullifier@ == nullifier@
                &&& v.proof_size == v.proof@.len()
                &&& v.verify_time == 0
            },
    {
        // Defensive guard against codes outside the valid domain; by
        // construction of `Party` this branch is unreachable.
        if party.as_u64() > 3 {
            return None;
        }
        let vote_value = party.as_u64();
        let start = instant_now();
        let result = bp_prove(vote_value, params);
        let gen_time = elapsed_nanos(&start);
        match result {
            Some((proof, commitment)) => {
                let proof_size = proof.len();
                Some(
                    Vote {
                        party,
                        nullifier,
                        proof,
                        commitment,
                        proof_size,
                        gen_time,
                        verify_time: 0,
                    },
                )
            },
            None => None,
        }
    }

    /// Checks this ballot's range proof against its commitment; records the
    /// time taken, touching nothing else. Returns `false` on any
    /// cryptographic check failure or malformed proof, without revealing
    /// the cause.
    pub fn verify(&mut self, params: &PublicParams) -> (r: bool)
        ensures
            r == old(self).valid(),
            final(self).party == old(self).party,
            final(self).nullifier == old(self).nullifier,
            final(self).proof == old(self).proof,
            final(self).commitment == old(self).commitment,
            final(self).proof_size == old(self).proof_size,
            final(self).gen_time == old(self).gen_time,
    {
        let start = instant_now();
        let result = bp_verify(&self.proof, &self.commitment, params);
        self.verify_time = elapsed_nanos(&start);
        result
    }
}

} // verus!
