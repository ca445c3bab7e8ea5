//! The submission ledger for the circuit-argument strategy. Same admission
//! protocol as the range-argument ledger — at most one ballot per
//! nullifier, and only with a verifying proof — against a verifying key
//! fixed at construction by the one-time trusted setup.

use vstd::prelude::*;

use crate::snark_vote::SnarkVote;
use crate::util::{bytes_eq, count_of, Metrics};

verus! {

/// Relies on `memory_stats::memory_stats`: the process's current physical
/// memory, or zero when unavailable. Nothing is promised of a reading of
/// the environment.
#[verifier::external_body]
fn physical_mem() -> (r: usize) {
    memory_stats::memory_stats().map(|m| m.physical_mem).unwrap_or(0)
}

/// The tallying authority for circuit-argument ballots: admitted
/// nullifiers (insertion-only), admitted option codes with their
/// commitments, the verifying key fixed at construction, and cumulative
/// observational counters.
pub struct VoteSubmission {
    nullifiers: Vec<Vec<u8>>,
    vk: Vec<u8>,
    votes: Vec<(u64, Vec<u8>)>,
    total_gen_time: u128,
    total_verify_time: u128,
    total_proof_size: usize,
    total_votes: usize,
    total_memory_used: usize,
}

impl VoteSubmission {
    /// Whether a ballot with nullifier `n` has been admitted.
    pub closed spec fn has_nullifier(self, n: Seq<u8>) -> bool {
        exists|i: int| 0 <= i < self.nullifiers@.len() && self.nullifiers@[i]@ == n
    }

    /// How many distinct nullifiers have been admitted.
    pub closed spec fn num_admitted(self) -> nat {
        self.nullifiers@.len()
    }

    /// The admitted option codes, in admission order.
    pub closed spec fn codes_seq(self) -> Seq<u64> {
        self.votes@.map_values(|t: (u64, Vec<u8>)| t.0)
    }

    /// The verifying key in force, fixed at construction.
    pub closed spec fn vk_bytes(self) -> Seq<u8> {
        self.vk@
    }

    pub closed spec fn gen_total(self) -> u128 {
        self.total_gen_time
    }

    pub closed spec fn verify_total(self) -> u128 {
        self.total_verify_time
    }

    pub closed spec fn size_total(self) -> usize {
        self.total_proof_size
    }

    pub closed spec fn votes_total(self) -> usize {
        self.total_votes
    }

    pub closed spec fn mem_total(self) -> usize {
        self.total_memory_used
    }

    /// The ledger's invariant: no nullifier recorded twice, one code per
    /// admitted nullifier, and every recorded code in the valid domain.
    pub closed spec fn wf(self) -> bool {
        &&& forall|i: int, j: int|
            0 <= i < j < self.nullifiers@.len() ==> self.nullifiers@[i]@ != self.nullifiers@[j]@
        &&& self.votes@.len() == self.nullifiers@.len()
        &&& self.total_votes == self.votes@.len()
        &&& forall|i: int| 0 <= i < self.votes@.len() ==> (#[trigger] self.votes@[i]).0 <= 3
    }

    /// Creates an empty ledger bound to the verifying key produced by the
    /// one-time trusted setup; the key is immutable thereafter, and no
    /// nullifier has been admitted yet.
    pub fn new(vk: Vec<u8>) -> (r: VoteSubmission)
        ensures
            r.wf(),
            r.num_admitted() == 0,
            forall|n: Seq<u8>| !r.has_nullifier(n),
            r.codes_seq() == Seq::<u64>::empty(),
            r.vk_bytes() == vk@,
            r.votes_total() == 0,
            r.gen_total() == 0,
            r.verify_total() == 0,
            r.size_total() == 0,
            r.mem_total() == 0,
    {
        let r = VoteSubmission {
            nullifiers: Vec::new(),
            vk,
            votes: Vec::new(),
            total_gen_time: 0,
            total_verify_time: 0,
            total_proof_size: 0,
            total_votes: 0,
            total_memory_used: 0,
        };
        proof {
            assert(r.codes_seq() =~= Seq::<u64>::empty());
        }
        r
    }

    fn contains_nullifier(&self, n: &Vec<u8>) -> (r: bool)
        ensures
            r == self.has_nullifier(n@),
    {
        let mut i: usize = 0;
        while i < self.nullifiers.len()
            invariant
                i <= self.nullifiers@.len(),
                forall|k: int| 0 <= k < i ==> self.nullifiers@[k]@ != n@,
            decreases self.nullifiers@.len() - i,
        {
            if bytes_eq(&self.nullifiers[i], n) {
                return true;
            }
            i += 1;
        }
        false
    }

    /// The atomic admission decision for this strategy: a ballot is
    /// admitted exactly when its option code is in the valid domain, its
    /// nullifier is fresh, and its proof verifies under the ledger's key;
    /// a rejection — whatever the cause — leaves the ledger exactly as it
    /// was.
    pub open spec fn admits(
        pre: VoteSubmission,
        post: VoteSubmission,
        vote: SnarkVote,
        r: bool,
    ) -> bool {
        &&& r == (vote.party <= 3 && !pre.has_nullifier(vote.nullifier@) && vote.valid_for(
            pre.vk_bytes(),
        ))
        &&& (r ==> {
            &&& post.num_admitted() == pre.num_admitted() + 1
            &&& post.has_nullifier(vote.nullifier@)
            &&& (forall|n: Seq<u8>| pre.has_nullifier(n) ==> post.has_nullifier(n))
            &&& (forall|n: Seq<u8>|
                post.has_nullifier(n) ==> pre.has_nullifier(n) || n == vote.nullifier@)
            &&& post.codes_seq() == pre.codes_seq().push(vote.party)
        })
        &&& (!r ==> post == pre)
    }

    /// Admits `vote` if and only if its code is a valid option, its
    /// nullifier is new to the ledger and its proof verifies, atomically;
    /// every rejection surfaces as the same bare `false` with the ledger
    /// untouched.
    pub fn submit_vote(&mut self, vote: SnarkVote) -> (r: bool)
        requires
            old(self).wf(),
        ensures
            final(self).wf(),
            VoteSubmission::admits(*old(self), *final(self), vote, r),
            final(self).vk_bytes() == old(self).vk_bytes(),
            r ==> final(self).votes_total() == old(self).votes_total() + 1,
            r ==> final(self).gen_total() == old(self).gen_total().saturating_add(vote.gen_time),
            r ==> final(self).size_total() == old(self).size_total().saturating_add(
                vote.proof_size,
            ),
            r ==> final(self).verify_total() >= old(self).verify_total(),
            r ==> final(self).mem_total() >= old(self).mem_total(),
    {
        let before = physical_mem();
        // Defensive guard: an option code outside the valid domain is
        // rejected outright, so the recorded codes stay in `[0, 3]`.
        if vote.party > 3 {
            return false;
        }
        // Reject a duplicate voter, with no state change.
        if self.contains_nullifier(&vote.nullifier) {
            return false;
        }
        // Reject a ballot whose proof fails, with no state change.
        let mut vote = vote;
        if !vote.verify(&self.vk) {
            return false;
        }
        // Record the nullifier and the code, and update the counters.
        let ghost pre_nullifiers = self.nullifiers@;
        self.nullifiers.push(vote.nullifier);
        self.votes.push((vote.party, vote.commitment));
        let after = physical_mem();
        self.total_memory_used = self.total_memory_used.saturating_add(
            after.saturating_sub(before),
        );
        self.total_votes = self.votes.len();
        self.total_gen_time = self.total_gen_time.saturating_add(vote.gen_time);
        self.total_verify_time = self.total_verify_time.saturating_add(vote.verify_time);
        self.total_proof_size = self.total_proof_size.saturating_add(vote.proof_size);
        proof {
            assert(self.nullifiers@[pre_nullifiers.len() as int]@ == vote.nullifier@);
            assert forall|n: Seq<u8>| old(self).has_nullifier(n) implies self.has_nullifier(
                n,
            ) by {
                let i = choose|i: int|
                    0 <= i < pre_nullifiers.len() && pre_nullifiers[i]@ == n;
                assert(self.nullifiers@[i]@ == n);
            }
            assert(self.codes_seq() =~= old(self).codes_seq().push(vote.party));
        }
        true
    }

    /// The tally: for each of the four option codes, in order, the number
    /// of admitted ballots carrying it. Pure; callable at any time.
    pub fn tally(&self) -> (r: Vec<(u64, usize)>)
        requires
            self.wf(),
        ensures
            r@.len() == 4,
            forall|k: int|
                0 <= k < 4 ==> (#[trigger] r@[k]).0 == k as u64 && r@[k].1 == count_of(
                    self.codes_seq(),
                    k as u64,
                ),
    {
        let n = self.votes.len();
        let mut c0: usize = 0;
        let mut c1: usize = 0;
        let mut c2: usize = 0;
        let mut c3: usize = 0;
        let mut i: usize = 0;
        while i < n
            invariant
                self.wf(),
                n == self.votes@.len(),
                i <= n,
                c0 == count_of(self.codes_seq().take(i as int), 0u64),
                c1 == count_of(self.codes_seq().take(i as int), 1u64),
                c2 == count_of(self.codes_seq().take(i as int), 2u64),
                c3 == count_of(self.codes_seq().take(i as int), 3u64),
                c0 <= i && c1 <= i && c2 <= i && c3 <= i,
            decreases n - i,
        {
            let code = self.votes[i].0;
            if code == 0 {
                c0 = c0 + 1;
            } else if code == 1 {
                c1 = c1 + 1;
            } else if code == 2 {
                c2 = c2 + 1;
            } else {
                c3 = c3 + 1;
            }
            proof {
                let t = self.codes_seq().take(i + 1);
                assert(t.drop_last() =~= self.codes_seq().take(i as int));
                assert(t.last() == self.codes_seq()[i as int]);
                assert(self.codes_seq()[i as int] == self.votes@[i as int].0);
                assert(self.votes@[i as int].0 <= 3);
            }
            i += 1;
        }
        proof {
            assert(self.codes_seq().take(n as int) =~= self.codes_seq());
        }
        let mut r: Vec<(u64, usize)> = Vec::new();
        r.push((0, c0));
        r.push((1, c1));
        r.push((2, c2));
        r.push((3, c3));
        r
    }

    /// How many ballots have been admitted.
    pub fn admitted_count(&self) -> (r: usize)
        requires
            self.wf(),
        ensures
            r == self.num_admitted(),
    {
        self.total_votes
    }

    /// A read-only snapshot of the cumulative performance counters.
    pub fn metrics(&self) -> (m: Metrics)
        ensures
            m.total_votes == self.votes_total(),
            m.total_gen_time == self.gen_total(),
            m.total_verify_time == self.verify_total(),
            m.total_proof_size == self.size_total(),
            m.total_memory_used == self.mem_total(),
    {
        Metrics {
            total_votes: self.total_votes,
            total_gen_time: self.total_gen_time,
            total_verify_time: self.total_verify_time,
            total_proof_size: self.total_proof_size,
            total_memory_used: self.total_memory_used,
        }
    }
}

/// LAW: tally correctness under admission, under the circuit-argument
/// strategy. Admitting a ballot increments exactly its own code's count,
/// and leaves the count of every other code unchanged.
pub proof fn lemma_admission_updates_one_count_snark(
    pre: VoteSubmission,
    post: VoteSubmission,
    vote: SnarkVote,
    code: u64,
)
    requires
        VoteSubmission::admits(pre, post, vote, true),
    ensures
        count_of(post.codes_seq(), code) == count_of(pre.codes_seq(), code) + if code
            == vote.party {
            1nat
        } else {
            0nat
        },
{
    assert(post.codes_seq().drop_last() =~= pre.codes_seq());
}

/// LAW: one vote per nullifier, under the circuit-argument strategy. After
/// a ballot with a given nullifier is admitted, any later ballot carrying
/// the same nullifier is rejected, and the admitted count has grown by
/// exactly one across the pair — never two.
pub proof fn lemma_one_vote_per_nullifier_snark(
    s0: VoteSubmission,
    s1: VoteSubmission,
    s2: VoteSubmission,
    v1: SnarkVote,
    v2: SnarkVote,
    r2: bool,
)
    requires
        VoteSubmission::admits(s0, s1, v1, true),
        v2.nullifier@ == v1.nullifier@,
        VoteSubmission::admits(s1, s2, v2, r2),
    ensures
        !r2,
        s2 == s1,
        s1.num_admitted() == s0.num_admitted() + 1,
{
}

/// LAW: rejection is silent about its cause, under the circuit-argument
/// strategy: any two rejections from the same state leave identical
/// (unchanged) ledgers and the same bare `false`.
pub proof fn lemma_rejection_silent_snark(
    pre: VoteSubmission,
    post_dup: VoteSubmission,
    v_dup: SnarkVote,
    post_bad: VoteSubmission,
    v_bad: SnarkVote,
)
    requires
        VoteSubmission::admits(pre, post_dup, v_dup, false),
        VoteSubmission::admits(pre, post_bad, v_bad, false),
    ensures
        post_dup == post_bad,
{
}

} // verus!
