//! Core of an anonymous single-vote election: ballot commitments, validity
//! proofs that a committed choice is one of the four valid option codes, and
//! a submission ledger that admits at most one ballot per voter nullifier.

pub mod circuit;
pub mod snark_submission;
pub mod snark_vote;
pub mod util;
pub mod vote_proof;
pub mod vote_submission;
pub mod voter_registration;
