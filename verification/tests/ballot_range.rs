//! End-to-end tests of the range-argument strategy: nullifier derivation,
//! honest ballot construction, admission, duplicate rejection and tally.

use bulletproofs::{BulletproofGens, PedersenGens, RangeProof};
use merlin::Transcript;
use zkballot::vote_proof::{PublicParams, Vote};
use zkballot::vote_submission::VoteSubmission;
use zkballot::voter_registration::{Party, VoteError, Voter};

fn all_parties() -> [Party; 4] {
    [Party::Liberal, Party::Conservative, Party::NDP, Party::Green]
}

/// A ballot whose proof was produced directly through the proof-system
/// collaborator for an arbitrary committed value, so tests can exercise
/// values the library's own encoder refuses.
fn raw_ballot(value: u64, nullifier: Vec<u8>) -> Vote {
    let bp_gens = BulletproofGens::new(8, 1);
    let pc_gens = PedersenGens::default();
    let mut transcript = Transcript::new(b"VoteProof");
    let blinding = curve25519_dalek_ng::scalar::Scalar::random(&mut rand::thread_rng());
    let (proof, commitment) =
        RangeProof::prove_single(&bp_gens, &pc_gens, &mut transcript, value, &blinding, 8)
            .expect("proving with adequate generators succeeds");
    let proof_bytes = proof.to_bytes();
    let size = proof_bytes.len();
    Vote {
        party: Party::Liberal,
        nullifier,
        proof: proof_bytes,
        commitment: commitment.to_bytes().to_vec(),
        proof_size: size,
        gen_time: 0,
        verify_time: 0,
    }
}

#[test]
fn party_codes_are_contiguous() {
    let values = Party::values();
    assert_eq!(
        values,
        vec![Party::Liberal, Party::Conservative, Party::NDP, Party::Green]
    );
    for (i, p) in values.iter().enumerate() {
        assert_eq!(p.as_u64(), i as u64);
    }
}

#[test]
fn party_from_u64_round_trips() {
    for code in 0u64..4 {
        let p = Party::from_u64(code).expect("codes 0..=3 are valid");
        assert_eq!(p.as_u64(), code);
    }
}

#[test]
fn party_from_u64_rejects_out_of_domain() {
    assert_eq!(Party::from_u64(4), Err(VoteError::InvalidOptionCode));
    assert_eq!(Party::from_u64(7), Err(VoteError::InvalidOptionCode));
    assert_eq!(Party::from_u64(u64::MAX), Err(VoteError::InvalidOptionCode));
}

#[test]
fn nullifier_is_deterministic() {
    let voter = Voter::new("alice".to_string());
    let first = voter.nullifier();
    let second = voter.nullifier();
    assert_eq!(first, second);
    assert_eq!(first.len(), 32);
}

#[test]
fn nullifiers_differ_across_blindings() {
    // Same identity, two registrations: the fresh blinding factors make the
    // nullifiers differ (with overwhelming probability), and neither echoes
    // its input bytes.
    let a = Voter::new("alice".to_string());
    let b = Voter::new("alice".to_string());
    let na = a.nullifier();
    let nb = b.nullifier();
    assert_ne!(na, nb);
    assert_ne!(na, "alice".as_bytes().to_vec());
}

#[test]
fn field_nullifier_is_deterministic() {
    let voter = Voter::new("bob".to_string());
    let first = voter.field_nullifier();
    let second = voter.field_nullifier();
    assert_eq!(first, second);
    assert_eq!(first.len(), 32);
    let other = Voter::new("bob".to_string()).field_nullifier();
    assert_ne!(first, other);
}

#[test]
fn honest_ballots_verify_for_every_code() {
    let params = PublicParams::new();
    for party in all_parties() {
        let voter = Voter::new(format!("voter_{:?}", party));
        let mut vote =
            Vote::new(party, voter.nullifier(), &params).expect("honest encoding succeeds");
        assert!(vote.verify(&params), "ballot for {:?} must verify", party);
        assert_eq!(vote.proof_size, vote.proof.len());
    }
}

#[test]
fn honest_ballots_are_admitted() {
    let mut submission = VoteSubmission::new();
    for (i, party) in all_parties().into_iter().enumerate() {
        let voter = Voter::new(format!("voter_{}", i));
        let vote = Vote::new(party, voter.nullifier(), &submission.params)
            .expect("honest encoding succeeds");
        assert!(submission.submit_vote(vote));
    }
    assert_eq!(submission.admitted_count(), 4);
}

#[test]
fn out_of_range_value_fails_verification() {
    // A commitment to 300 lies outside [0, 2^8): its range proof must fail.
    let mut submission = VoteSubmission::new();
    let voter = Voter::new("cheater".to_string());
    let mut vote = raw_ballot(300, voter.nullifier());
    assert!(!vote.verify(&submission.params));
    let vote = raw_ballot(300, voter.nullifier());
    assert!(!submission.submit_vote(vote));
    assert_eq!(submission.admitted_count(), 0);
}

#[test]
fn in_range_invalid_code_passes_range_check() {
    // Documented weakness of the range-argument strategy: 5 is outside the
    // valid option domain but inside [0, 2^8), so its proof still verifies.
    let mut submission = VoteSubmission::new();
    let voter = Voter::new("edge".to_string());
    let vote = raw_ballot(5, voter.nullifier());
    assert!(submission.submit_vote(vote));
}

#[test]
fn corrupted_proof_is_rejected() {
    let submission = VoteSubmission::new();
    let voter = Voter::new("mallory".to_string());
    let mut vote =
        Vote::new(Party::Green, voter.nullifier(), &submission.params).expect("encoding succeeds");
    vote.proof[0] ^= 0x01;
    assert!(!vote.verify(&submission.params));
}

#[test]
fn duplicate_nullifier_rejected() {
    let mut submission = VoteSubmission::new();
    let voter = Voter::new("double_voter".to_string());
    let nullifier = voter.nullifier();

    let first = Vote::new(Party::Liberal, nullifier.clone(), &submission.params).unwrap();
    assert!(submission.submit_vote(first));
    assert_eq!(submission.admitted_count(), 1);

    let second = Vote::new(Party::Conservative, nullifier, &submission.params).unwrap();
    assert!(!submission.submit_vote(second));
    assert_eq!(submission.admitted_count(), 1);
}

#[test]
fn rejection_is_silent_about_cause() {
    let mut submission = VoteSubmission::new();
    let voter = Voter::new("carol".to_string());
    let nullifier = voter.nullifier();
    let first = Vote::new(Party::NDP, nullifier.clone(), &submission.params).unwrap();
    assert!(submission.submit_vote(first));

    // Duplicate-nullifier rejection.
    let duplicate = Vote::new(Party::Green, nullifier, &submission.params).unwrap();
    let dup_outcome = submission.submit_vote(duplicate);

    // Failed-proof rejection.
    let other = Voter::new("dave".to_string());
    let mut bad = Vote::new(Party::Green, other.nullifier(), &submission.params).unwrap();
    bad.proof[0] ^= 0x01;
    let bad_outcome = submission.submit_vote(bad);

    // Both surface as the same bare boolean, with no distinguishing shape.
    assert_eq!(dup_outcome, bad_outcome);
    assert_eq!(dup_outcome, false);
    assert_eq!(submission.admitted_count(), 1);
}

#[test]
fn tally_counts_each_code_once() {
    let mut submission = VoteSubmission::new();
    for (i, party) in all_parties().into_iter().enumerate() {
        let voter = Voter::new(format!("tally_voter_{}", i));
        let vote = Vote::new(party, voter.nullifier(), &submission.params).unwrap();
        assert!(submission.submit_vote(vote));
    }
    let tally = submission.tally();
    assert_eq!(
        tally,
        vec![
            (Party::Liberal, 1),
            (Party::Conservative, 1),
            (Party::NDP, 1),
            (Party::Green, 1),
        ]
    );
}

#[test]
fn end_to_end_scenario() {
    let mut submission = VoteSubmission::new();

    // Voter A submits code 0: accepted.
    let voter_a = Voter::new("voter_a".to_string());
    let nullifier_a = voter_a.nullifier();
    let vote_a = Vote::new(Party::Liberal, nullifier_a.clone(), &submission.params).unwrap();
    assert!(submission.submit_vote(vote_a));

    // Voter A attempts code 1 with the same nullifier: rejected.
    let retry_a = Vote::new(Party::Conservative, nullifier_a, &submission.params).unwrap();
    assert!(!submission.submit_vote(retry_a));

    // Voter B submits code 1: accepted.
    let voter_b = Voter::new("voter_b".to_string());
    let vote_b = Vote::new(Party::Conservative, voter_b.nullifier(), &submission.params).unwrap();
    assert!(submission.submit_vote(vote_b));

    let tally = submission.tally();
    assert_eq!(
        tally,
        vec![
            (Party::Liberal, 1),
            (Party::Conservative, 1),
            (Party::NDP, 0),
            (Party::Green, 0),
        ]
    );
}

#[test]
fn metrics_track_admissions() {
    let mut submission = VoteSubmission::new();
    assert_eq!(submission.metrics().total_votes, 0);

    let voter = Voter::new("metered".to_string());
    let vote = Vote::new(Party::Liberal, voter.nullifier(), &submission.params).unwrap();
    let size = vote.proof_size;
    assert!(submission.submit_vote(vote));

    let metrics = submission.metrics();
    assert_eq!(metrics.total_votes, 1);
    assert_eq!(metrics.total_proof_size, size);
    assert!(size > 0);
}
