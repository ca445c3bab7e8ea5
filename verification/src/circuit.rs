//! The statement enforced by the circuit-argument strategy, in verified
//! form.
//!
//! The constraint system decomposes the polynomial identity
//! `v·(v−1)·(v−2)·(v−3) = 0` into three multiplication gates: a first gate
//! `p1 = v·(v−1)`, a second gate `p2 = (v−2)·(v−3)`, and a final gate
//! enforcing `p1·p2 = 0`. Unlike the range argument, this identity
//! characterizes the four valid option codes exactly, which is proved here
//! once and for all. The constraint-system embedding itself runs in the
//! demonstration driver, through the proof-system collaborator.

use vstd::prelude::*;

verus! {

/// The first multiplication gate: `v·(v−1)`.
pub open spec fn gate_p1(v: int) -> int {
    v * (v - 1)
}

/// The second multiplication gate: `(v−2)·(v−3)`.
pub open spec fn gate_p2(v: int) -> int {
    (v - 2) * (v - 3)
}

/// The final gate's polynomial identity: `p1·p2 = 0`.
pub open spec fn vote_identity_holds(v: int) -> bool {
    gate_p1(v) * gate_p2(v) == 0
}

/// An integer product is zero exactly when one of its factors is.
proof fn lemma_mul_zero(a: int, b: int)
    ensures
        (a * b == 0) <==> (a == 0 || b == 0),
{
    assert((a * b == 0) <==> (a == 0 || b == 0)) by (nonlinear_arith);
}

/// LAW: exactness of the circuit statement. The polynomial identity holds of an
/// integer exactly when it is one of the four valid option codes — the
/// circuit argument neither admits a fifth value nor excludes a valid one.
pub proof fn lemma_vote_identity_exact(v: int)
    ensures
        vote_identity_holds(v) <==> (v == 0 || v == 1 || v == 2 || v == 3),
{
    lemma_mul_zero(gate_p1(v), gate_p2(v));
    lemma_mul_zero(v, v - 1);
    lemma_mul_zero(v - 2, v - 3);
}

/// Whether `value` satisfies the circuit's polynomial identity, i.e. is a
/// valid option code.
pub fn is_valid_code(value: u64) -> (r: bool)
    ensures
        r <==> vote_identity_holds(value as int),
        r <==> value <= 3,
{
    proof {
        lemma_vote_identity_exact(value as int);
    }
    value <= 3
}

} // verus!
