//! End-to-end tests of the circuit-argument strategy: the constraint system
//! enforcing the polynomial identity, the one-time trusted setup, honest ballots,
//! duplicate rejection and the binding of proofs to their public inputs.

use ark_bls12_381::{Bls12_381, Fr};
use ark_groth16::{Groth16, ProvingKey};
use ark_relations::r1cs::{
    ConstraintSynthesizer, ConstraintSystem, ConstraintSystemRef, LinearCombination,
    SynthesisError, Variable,
};
use ark_serialize::{CanonicalDeserialize, CanonicalSerialize};
use ark_snark::{CircuitSpecificSetupSNARK, SNARK};
use ark_std::UniformRand;
use zkballot::circuit::is_valid_code;
use zkballot::snark_submission::VoteSubmission;
use zkballot::snark_vote::SnarkVote;
use zkballot::voter_registration::{Party, Voter};

/// The constraint system of the validity statement: three multiplication
/// gates enforcing `vote·(vote−1)·(vote−2)·(vote−3) = 0`, with the
/// nullifier and the blinding commitment as public inputs.
struct VotingCircuit {
    vote: Option<Fr>,
    nullifier_hash: Option<Fr>,
    blinding: Option<Fr>,
}

impl ConstraintSynthesizer<Fr> for VotingCircuit {
    fn generate_constraints(self, cs: ConstraintSystemRef<Fr>) -> Result<(), SynthesisError> {
        let vote_var =
            cs.new_witness_variable(|| self.vote.ok_or(SynthesisError::AssignmentMissing))?;
        let _nullifier_var = cs
            .new_input_variable(|| self.nullifier_hash.ok_or(SynthesisError::AssignmentMissing))?;
        let _blinding_var =
            cs.new_input_variable(|| self.blinding.ok_or(SynthesisError::AssignmentMissing))?;
        let one = Fr::from(1u64);
        let two = Fr::from(2u64);
        let three = Fr::from(3u64);

        let product1 = cs.new_witness_variable(|| {
            let v = self.vote.ok_or(SynthesisError::AssignmentMissing)?;
            Ok(v * (v - one))
        })?;
        cs.enforce_constraint(
            LinearCombination::from(vote_var),
            LinearCombination::from(vote_var) - (one, Variable::One),
            LinearCombination::from(product1),
        )?;

        let product2 = cs.new_witness_variable(|| {
            let v = self.vote.ok_or(SynthesisError::AssignmentMissing)?;
            Ok((v - two) * (v - three))
        })?;
        cs.enforce_constraint(
            LinearCombination::from(vote_var) - (two, Variable::One),
            LinearCombination::from(vote_var) - (three, Variable::One),
            LinearCombination::from(product2),
        )?;

        cs.enforce_constraint(
            LinearCombination::from(product1),
            LinearCombination::from(product2),
            LinearCombination::zero(),
        )?;
        Ok(())
    }
}

fn circuit_for(vote: u64) -> VotingCircuit {
    VotingCircuit {
        vote: Some(Fr::from(vote)),
        nullifier_hash: Some(Fr::from(11u64)),
        blinding: Some(Fr::from(13u64)),
    }
}

fn setup_keys() -> (ProvingKey<Bls12_381>, Vec<u8>) {
    let mut rng = rand::thread_rng();
    let circuit = VotingCircuit {
        vote: Some(Fr::from(1u64)),
        nullifier_hash: Some(Fr::rand(&mut rng)),
        blinding: Some(Fr::rand(&mut rng)),
    };
    let (pk, vk) = Groth16::<Bls12_381>::setup(circuit, &mut rng).expect("trusted setup succeeds");
    let mut vk_bytes = Vec::new();
    vk.serialize_compressed(&mut vk_bytes).unwrap();
    (pk, vk_bytes)
}

fn make_vote(party: Party, voter: &Voter, pk: &ProvingKey<Bls12_381>) -> SnarkVote {
    let mut rng = rand::thread_rng();
    let nullifier_bytes = voter.field_nullifier();
    let nullifier = Fr::deserialize_compressed(nullifier_bytes.as_slice())
        .expect("canonical field-element bytes deserialize");
    let blinding = Fr::rand(&mut rng);
    let circuit = VotingCircuit {
        vote: Some(Fr::from(party.as_u64())),
        nullifier_hash: Some(nullifier),
        blinding: Some(blinding),
    };
    let proof = Groth16::<Bls12_381>::prove(pk, circuit, &mut rng).expect("proving succeeds");
    let mut proof_bytes = Vec::new();
    proof.serialize_compressed(&mut proof_bytes).unwrap();
    let mut commitment = Vec::new();
    blinding.serialize_compressed(&mut commitment).unwrap();
    SnarkVote::new(party, nullifier_bytes, commitment, proof_bytes, 0)
}

#[test]
fn circuit_satisfied_exactly_on_valid_codes() {
    for vote in [0u64, 1, 2, 3, 4, 5, 77, 256] {
        let cs = ConstraintSystem::<Fr>::new_ref();
        circuit_for(vote)
            .generate_constraints(cs.clone())
            .expect("constraint generation succeeds");
        let satisfied = cs.is_satisfied().expect("satisfaction check runs");
        assert_eq!(satisfied, vote <= 3, "vote {} mis-characterized", vote);
    }
}

#[test]
fn is_valid_code_matches_gate_identity() {
    for code in 0u64..4 {
        assert!(is_valid_code(code));
    }
    assert!(!is_valid_code(4));
    assert!(!is_valid_code(5));
    assert!(!is_valid_code(u64::MAX));
}

#[test]
fn snark_honest_ballots_admitted_and_tallied() {
    let (pk, vk_bytes) = setup_keys();
    let mut submission = VoteSubmission::new(vk_bytes);
    for (i, party) in [Party::Liberal, Party::Conservative, Party::NDP, Party::Green]
        .into_iter()
        .enumerate()
    {
        let voter = Voter::new(format!("snark_voter_{}", i));
        let vote = make_vote(party, &voter, &pk);
        assert!(submission.submit_vote(vote), "ballot for {:?} admitted", party);
    }
    assert_eq!(submission.admitted_count(), 4);
    assert_eq!(submission.tally(), vec![(0, 1), (1, 1), (2, 1), (3, 1)]);
}

#[test]
fn snark_duplicate_nullifier_rejected() {
    let (pk, vk_bytes) = setup_keys();
    let mut submission = VoteSubmission::new(vk_bytes);
    let voter = Voter::new("snark_double_voter".to_string());

    let first = make_vote(Party::Liberal, &voter, &pk);
    assert!(submission.submit_vote(first));
    assert_eq!(submission.admitted_count(), 1);

    let second = make_vote(Party::Conservative, &voter, &pk);
    let outcome = submission.submit_vote(second);
    assert_eq!(outcome, false);
    assert_eq!(submission.admitted_count(), 1);
    assert_eq!(submission.tally(), vec![(0, 1), (1, 0), (2, 0), (3, 0)]);
}

#[test]
fn snark_proof_bound_to_public_inputs() {
    // A proof generated for one nullifier must not verify against another:
    // the public inputs bind the proof to a specific (nullifier, commitment).
    let (pk, vk_bytes) = setup_keys();
    let mut submission = VoteSubmission::new(vk_bytes);
    let voter = Voter::new("snark_binder".to_string());
    let mut vote = make_vote(Party::NDP, &voter, &pk);
    vote.nullifier[0] ^= 0x01;
    assert!(!submission.submit_vote(vote));
    assert_eq!(submission.admitted_count(), 0);
}

#[test]
fn snark_corrupted_proof_rejected() {
    let (pk, vk_bytes) = setup_keys();
    let mut submission = VoteSubmission::new(vk_bytes);
    let voter = Voter::new("snark_mallory".to_string());
    let mut vote = make_vote(Party::Green, &voter, &pk);
    vote.proof[0] ^= 0x01;
    assert!(!submission.submit_vote(vote));
}

#[test]
fn snark_out_of_domain_code_rejected() {
    // A ballot whose recorded code is outside [0, 3] is refused outright,
    // whatever its proof says.
    let (pk, vk_bytes) = setup_keys();
    let mut submission = VoteSubmission::new(vk_bytes);
    let voter = Voter::new("snark_forger".to_string());
    let honest = make_vote(Party::Liberal, &voter, &pk);
    let forged = SnarkVote {
        party: 9,
        nullifier: honest.nullifier,
        proof: honest.proof,
        commitment: honest.commitment,
        proof_size: honest.proof_size,
        gen_time: 0,
        verify_time: 0,
    };
    assert!(!submission.submit_vote(forged));
    assert_eq!(submission.admitted_count(), 0);
}
