//! The submission ledger for the range-argument strategy: admits each ballot
//! at most once per nullifier, and only if its validity proof checks out;
//! the two rejection causes are indistinguishable to the caller.

use vstd::prelude::*;

use crate::util::{bytes_eq, count_of, lemma_count_le_len, Metrics};
use crate::vote_proof::{PublicParams, Vote};
use crate::voter_registration::Party;

verus! {

/// Relies on `memory_stats::memory_stats`: the process's current physical
/// memory, or zero when unavailable. Nothing is promised of a reading of
/// the environment.
#[verifier::external_body]
fn physical_mem() -> (r: usize) {
    memory_stats::memory_stats().map(|m| m.physical_mem).unwrap_or(0)
}

/// The option of the four at position `k` in code order.
pub open spec fn party_of_index(k: int) -> Party {
    if k == 0 {
        Party::Liberal
    } else if k == 1 {
        Party::Conservative
    } else if k == 2 {
        Party::NDP
    } else {
        Party::Green
    }
}

/// LAW: the option codes are contiguous. The option at position `k` of the
/// tally carries exactly the code `k`, with no gaps — the contiguity the
/// range-argument strategy relies on.
pub proof fn lemma_party_codes_contiguous(k: int)
    requires
        0 <= k < 4,
    ensures
        party_of_index(k).code() == k,
{
}

/// The stateful tallying authority: the set of admitted nullifiers
/// (insertion-only), the multiset of admitted option codes, the shared
/// public parameters fixed at construction, and cumulative observational
/// counters.
pub struct VoteSubmission {
    nullifiers: Vec<Vec<u8>>,
    pub params: PublicParams,
    votes: Vec<Party>,
    total_gen_time: u128,
    total_verify_time: u128,
    total_proof_size: usize,
    total_votes: usize,
    total_memory_used: usize,
}

impl VoteSubmission {
    /// Whether a ballot with nullifier `n` has been admitted.
    pub closed spec fn has_nullifier(self, n: Seq<u8>) -> bool {
        exists|i: int| 0 <= i < self.nullifiers@.len() && self.nullifiers@[i]@ == n
    }

    /// How many distinct nullifiers have been admitted.
    pub closed spec fn num_admitted(self) -> nat {
        self.nullifiers@.len()
    }

    /// The admitted option codes, in admission order (the order is
    /// irrelevant to the tally).
    pub closed spec fn votes_seq(self) -> Seq<Party> {
        self.votes@
    }

    pub closed spec fn gen_total(self) -> u128 {
        self.total_gen_time
    }

    pub closed spec fn verify_total(self) -> u128 {
        self.total_verify_time
    }

    pub closed spec fn size_total(self) -> usize {
        self.total_proof_size
    }

    pub closed spec fn votes_total(self) -> usize {
        self.total_votes
    }

    pub closed spec fn mem_total(self) -> usize {
        self.total_memory_used
    }

    /// The shared public parameters, as seen by specifications.
    pub closed spec fn shared_params(self) -> PublicParams {
        self.params
    }

    /// The ledger's invariant: no admitted nullifier is recorded twice, and
    /// exactly one option code is recorded per admitted nullifier.
    pub closed spec fn wf(self) -> bool {
        &&& forall|i: int, j: int|
            0 <= i < j < self.nullifiers@.len() ==> self.nullifiers@[i]@ != self.nullifiers@[j]@
        &&& self.votes@.len() == self.nullifiers@.len()
        &&& self.total_votes == self.votes@.len()
    }

    /// Creates an empty ledger with freshly fixed public parameters:
    /// no nullifier has been admitted yet.
    pub fn new() -> (r: VoteSubmission)
        ensures
            r.wf(),
            r.num_admitted() == 0,
            forall|n: Seq<u8>| !r.has_nullifier(n),
            r.votes_seq() == Seq::<Party>::empty(),
            r.votes_total() == 0,
            r.gen_total() == 0,
            r.verify_total() == 0,
            r.size_total() == 0,
            r.mem_total() == 0,
    {
        let r = VoteSubmission {
            nullifiers: Vec::new(),
            params: PublicParams::new(),
            votes: Vec::new(),
            total_gen_time: 0,
            total_verify_time: 0,
            total_proof_size: 0,
            total_votes: 0,
            total_memory_used: 0,
        };
        proof {
            assert(r.votes_seq() =~= Seq::<Party>::empty());
        }
        r
    }

    fn contains_nullifier(&self, n: &Vec<u8>) -> (r: bool)
        ensures
            r == self.has_nullifier(n@),
    {
        let mut i: usize = 0;
        while i < self.nullifiers.len()
            invariant
                i <= self.nullifiers@.len(),
                forall|k: int| 0 <= k < i ==> self.nullifiers@[k]@ != n@,
            decreases self.nullifiers@.len() - i,
        {
            if bytes_eq(&self.nullifiers[i], n) {
                return true;
            }
            i += 1;
        }
        false
    }

    /// The atomic admission decision: `r` is the verdict on `vote` taken in
    /// state `pre`, and `post` is the state after. A ballot is admitted
    /// exactly when its nullifier is fresh and its proof is valid; an
    /// admission records precisely that nullifier and that option code; a
    /// rejection — for either cause — leaves the ledger exactly as it was.
    pub open spec fn admits(pre: VoteSubmission, post: VoteSubmission, vote: Vote, r: bool) -> bool {
        &&& r == (!pre.has_nullifier(vote.nullifier@) && vote.valid())
        &&& (r ==> {
            &&& post.num_admitted() == pre.num_admitted() + 1
            &&& post.has_nullifier(vote.nullifier@)
            &&& (forall|n: Seq<u8>| pre.has_nullifier(n) ==> post.has_nullifier(n))
            &&& (forall|n: Seq<u8>|
                post.has_nullifier(n) ==> pre.has_nullifier(n) || n == vote.nullifier@)
            &&& post.votes_seq() == pre.votes_seq().push(vote.party)
        })
        &&& (!r ==> post == pre)
    }

    /// Admits `vote` if and only if its nullifier is new to the ledger and
    /// its range proof verifies, atomically; both rejection causes surface
    /// as the same bare `false` with the ledger untouched.
    pub fn submit_vote(&mut self, vote: Vote) -> (r: bool)
        requires
            old(self).wf(),
        ensures
            final(self).wf(),
            VoteSubmission::admits(*old(self), *final(self), vote, r),
            final(self).shared_params() == old(self).shared_params(),
            r ==> final(self).votes_total() == old(self).votes_total() + 1,
            r ==> final(self).gen_total() == old(self).gen_total().saturating_add(vote.gen_time),
            r ==> final(self).size_total() == old(self).size_total().saturating_add(
                vote.proof_size,
            ),
            r ==> final(self).verify_total() >= old(self).verify_total(),
            r ==> final(self).mem_total() >= old(self).mem_total(),
    {
        let before = physical_mem();
        // Step 1: reject a duplicate voter, with no state change.
        if self.contains_nullifier(&vote.nullifier) {
            return false;
        }
        // Step 2: reject a ballot whose proof fails, with no state change.
        let mut vote = vote;
        if !vote.verify(&self.params) {
            return false;
        }
        // Step 3: record the nullifier and the revealed option code, and
        // update the observational counters.
        let ghost pre_nullifiers = self.nullifiers@;
        self.nullifiers.push(vote.nullifier);
        self.votes.push(vote.party);
        let after = physical_mem();
        self.total_memory_used = self.total_memory_used.saturating_add(
            after.saturating_sub(before),
        );
        self.total_votes = self.votes.len();
        self.total_gen_time = self.total_gen_time.saturating_add(vote.gen_time);
        self.total_verify_time = self.total_verify_time.saturating_add(vote.verify_time);
        self.total_proof_size = self.total_proof_size.saturating_add(vote.proof_size);
        proof {
            assert(self.nullifiers@ == pre_nullifiers.push(vote.nullifier));
            assert(self.nullifiers@[pre_nullifiers.len() as int]@ == vote.nullifier@);
            assert forall|n: Seq<u8>| old(self).has_nullifier(n) implies self.has_nullifier(
                n,
            ) by {
                let i = choose|i: int|
                    0 <= i < pre_nullifiers.len() && pre_nullifiers[i]@ == n;
                assert(self.nullifiers@[i]@ == n);
            }
        }
        true
    }

    /// The tally: for each of the four options, in code order, the number
    /// of admitted ballots that revealed it. Pure; callable at any time.
    pub fn tally(&self) -> (r: Vec<(Party, usize)>)
        ensures
            r@.len() == 4,
            forall|k: int|
                0 <= k < 4 ==> (#[trigger] r@[k]).0 == party_of_index(k) && r@[k].1 == count_of(
                    self.votes_seq(),
                    party_of_index(k),
                ),
    {
        let n = self.votes.len();
        let mut c0: usize = 0;
        let mut c1: usize = 0;
        let mut c2: usize = 0;
        let mut c3: usize = 0;
        let mut i: usize = 0;
        while i < n
            invariant
                n == self.votes@.len(),
                i <= n,
                c0 == count_of(self.votes@.take(i as int), Party::Liberal),
                c1 == count_of(self.votes@.take(i as int), Party::Conservative),
                c2 == count_of(self.votes@.take(i as int), Party::NDP),
                c3 == count_of(self.votes@.take(i as int), Party::Green),
                c0 <= i && c1 <= i && c2 <= i && c3 <= i,
            decreases n - i,
        {
            let p = self.votes[i];
            match p {
                Party::Liberal => { c0 = c0 + 1; },
                Party::Conservative => { c1 = c1 + 1; },
                Party::NDP => { c2 = c2 + 1; },
                Party::Green => { c3 = c3 + 1; },
            }
            proof {
                let t = self.votes@.take(i + 1);
                assert(t.drop_last() =~= self.votes@.take(i as int));
                assert(t.last() == self.votes@[i as int]);
            }
            i += 1;
        }
        proof {
            assert(self.votes@.take(n as int) =~= self.votes@);
        }
        let mut r: Vec<(Party, usize)> = Vec::new();
        r.push((Party::Liberal, c0));
        r.push((Party::Conservative, c1));
        r.push((Party::NDP, c2));
        r.push((Party::Green, c3));
        r
    }

    /// How many ballots have been admitted.
    pub fn admitted_count(&self) -> (r: usize)
        requires
            self.wf(),
        ensures
            r == self.num_admitted(),
    {
        self.total_votes
    }

    /// A read-only snapshot of the cumulative performance counters.
    pub fn metrics(&self) -> (m: Metrics)
        ensures
            m.total_votes == self.votes_total(),
            m.total_gen_time == self.gen_total(),
            m.total_verify_time == self.verify_total(),
            m.total_proof_size == self.size_total(),
            m.total_memory_used == self.mem_total(),
    {
        Metrics {
            total_votes: self.total_votes,
            total_gen_time: self.total_gen_time,
            total_verify_time: self.total_verify_time,
            total_proof_size: self.total_proof_size,
            total_memory_used: self.total_memory_used,
        }
    }
}

/// LAW: one vote per nullifier. Once a ballot with a given nullifier has
/// been admitted, any later ballot carrying the same nullifier is rejected,
/// and the count of admitted nullifiers has grown by exactly one across the
/// pair of submissions — never two.
pub proof fn lemma_one_vote_per_nullifier(
    s0: VoteSubmission,
    s1: VoteSubmission,
    s2: VoteSubmission,
    v1: Vote,
    v2: Vote,
    r2: bool,
)
    requires
        VoteSubmission::admits(s0, s1, v1, true),
        v2.nullifier@ == v1.nullifier@,
        VoteSubmission::admits(s1, s2, v2, r2),
    ensures
        !r2,
        s2 == s1,
        s1.num_admitted() == s0.num_admitted() + 1,
{
}

/// LAW: admission completeness. A ballot whose proof is valid and whose
/// nullifier is fresh is always admitted, and the admitted count grows by
/// one.
pub proof fn lemma_fresh_valid_ballot_admitted(
    pre: VoteSubmission,
    post: VoteSubmission,
    vote: Vote,
    r: bool,
)
    requires
        VoteSubmission::admits(pre, post, vote, r),
        !pre.has_nullifier(vote.nullifier@),
        vote.valid(),
    ensures
        r,
        post.num_admitted() == pre.num_admitted() + 1,
{
}

/// LAW: rejection is silent about its cause. Whatever made the ledger
/// reject a ballot — a duplicate nullifier or a failed proof — the caller
/// sees the same bare `false`, and the ledger state after either rejection
/// is identical (namely, unchanged).
pub proof fn lemma_rejection_silent(
    pre: VoteSubmission,
    post_dup: VoteSubmission,
    v_dup: Vote,
    post_bad: VoteSubmission,
    v_bad: Vote,
)
    requires
        VoteSubmission::admits(pre, post_dup, v_dup, false),
        VoteSubmission::admits(pre, post_bad, v_bad, false),
    ensures
        post_dup == post_bad,
{
}

/// LAW: tally correctness under admission. Admitting a ballot increments
/// exactly its own option's count, and leaves the count of every other
/// option unchanged.
pub proof fn lemma_admission_updates_one_count(
    pre: VoteSubmission,
    post: VoteSubmission,
    vote: Vote,
    p: Party,
)
    requires
        VoteSubmission::admits(pre, post, vote, true),
    ensures
        count_of(post.votes_seq(), p) == count_of(pre.votes_seq(), p) + if p == vote.party {
            1nat
        } else {
            0nat
        },
{
    assert(post.votes_seq().drop_last() =~= pre.votes_seq());
}

/// LAW: the tally is a pure projection of the admitted codes, and every
/// count is bounded by the number of admitted ballots.
pub proof fn lemma_tally_counts_bounded(s: VoteSubmission, k: int)
    requires
        s.wf(),
        0 <= k < 4,
    ensures
        count_of(s.votes_seq(), party_of_index(k)) <= s.num_admitted(),
{
    lemma_count_le_len(s.votes_seq(), party_of_index(k));
}

} // verus!
