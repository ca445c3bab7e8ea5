//! Voter registration: the `Party` option codes and the voter/nullifier
//! derivation.
//!
//! A voter holds a registered identity string and a private random blinding
//! factor drawn once at registration. The nullifier is a one-way digest of
//! the two; it lets the ledger detect a repeat voter without linking the
//! ballot back to the identity.

use ark_ff::PrimeField;
use ark_serialize::CanonicalSerialize;
use sha3::Digest;
use vstd::prelude::*;
use vstd::utf8::encode_utf8;

verus! {

/// One of the four valid voting options, mapped to the contiguous integer
/// codes `0..=3`.
#[derive(Debug, Copy, Clone, PartialEq, Eq, Hash, Structural)]
pub enum Party {
    Liberal,
    Conservative,
    NDP,
    Green,
}

/// Error raised when an integer option code falls outside the valid
/// domain `[0, 3]`.
#[derive(Debug, Copy, Clone, PartialEq, Eq, Structural)]
pub enum VoteError {
    InvalidOptionCode,
}

impl Party {
    /// The integer code of this option: a value in `[0, 3]`.
    pub open spec fn code(self) -> u64 {
        match self {
            Party::Liberal => 0,
            Party::Conservative => 1,
            Party::NDP => 2,
            Party::Green => 3,
        }
    }

    /// All four options, in code order.
    pub fn values() -> (r: Vec<Party>)
        ensures
            r@ == seq![Party::Liberal, Party::Conservative, Party::NDP, Party::Green],
    {
        let mut v: Vec<Party> = Vec::new();
        v.push(Party::Liberal);
        v.push(Party::Conservative);
        v.push(Party::NDP);
        v.push(Party::Green);
        proof {
            assert(v@ =~= seq![Party::Liberal, Party::Conservative, Party::NDP, Party::Green]);
        }
        v
    }

    /// The integer code of this option.
    pub fn as_u64(&self) -> (r: u64)
        ensures
            r == self.code(),
            r <= 3,
    {
        match self {
            Party::Liberal => 0,
            Party::Conservative => 1,
            Party::NDP => 2,
            Party::Green => 3,
        }
    }

    /// Fallible conversion from an integer code; rejects any code outside
    /// the valid domain `[0, 3]` instead of aborting, since codes may come
    /// from less-trusted contexts.
    pub fn from_u64(value: u64) -> (r: Result<Party, VoteError>)
        ensures
            match r {
                Ok(p) => value <= 3 && p.code() == value,
                Err(e) => value > 3 && e == VoteError::InvalidOptionCode,
            },
    {
        match value {
            0 => Ok(Party::Liberal),
            1 => Ok(Party::Conservative),
            2 => Ok(Party::NDP),
            3 => Ok(Party::Green),
            _ => Err(VoteError::InvalidOptionCode),
        }
    }
}

/// The 32-byte digest that the nullifier derivation relies on.
pub uninterp spec fn sha3_256_of(data: Seq<u8>) -> Seq<u8>;

/// Relies on `sha3::Sha3_256` (via the `Digest` trait): a deterministic,
/// collision-resistant 32-byte digest of the input bytes.
#[verifier::external_body]
fn sha3_256(data: &Vec<u8>) -> (r: Vec<u8>)
    ensures
        r@ == sha3_256_of(data@),
        r@.len() == 32,
{
    let mut hash = sha3::Sha3_256::new();
    hash.update(data.as_slice());
    hash.finalize().to_vec()
}

/// Relies on `curve25519_dalek_ng::scalar::Scalar::random` (and `to_bytes`):
/// 32 bytes of a scalar drawn uniformly at random from the group's scalar
/// field. Nothing more is promised of a random value.
#[verifier::external_body]
fn random_scalar_bytes() -> (r: Vec<u8>)
    ensures
        r@.len() == 32,
{
    let s = curve25519_dalek_ng::scalar::Scalar::random(&mut rand::rngs::OsRng);
    s.to_bytes().to_vec()
}

/// The order of the BLS12-381 scalar field.
pub open spec fn bls12_381_scalar_order() -> nat {
    52435875175126190479447740508185965837690552500527637822603658699938581184513nat
}

/// The integer value of a byte string read little-endian.
pub open spec fn le_bytes_to_nat(s: Seq<u8>) -> nat
    decreases s.len(),
{
    if s.len() == 0 {
        0
    } else {
        (s[0] as nat) + 256 * le_bytes_to_nat(s.drop_first())
    }
}

/// The `k` little-endian bytes of `v`.
pub open spec fn nat_to_le_bytes(v: nat, k: nat) -> Seq<u8>
    decreases k,
{
    if k == 0 {
        Seq::empty()
    } else {
        seq![(v % 256) as u8] + nat_to_le_bytes(v / 256, (k - 1) as nat)
    }
}

/// The canonical 32-byte encoding of the BLS12-381 scalar-field element
/// obtained by reducing the input: the bytes are read as a little-endian
/// integer, reduced modulo the field order, and written back as 32
/// little-endian bytes.
pub open spec fn fr_reduce(data: Seq<u8>) -> Seq<u8> {
    nat_to_le_bytes(le_bytes_to_nat(data) % bls12_381_scalar_order(), 32)
}

/// Relies on `ark_bls12_381::Fr::from_le_bytes_mod_order` (the input read
/// little-endian, reduced modulo the field order) and
/// `CanonicalSerialize::serialize_compressed` (the canonical representative
/// written back as 32 little-endian bytes).
#[verifier::external_body]
fn fr_reduce_bytes(data: &Vec<u8>) -> (r: Vec<u8>)
    ensures
        r@ == fr_reduce(data@),
        r@.len() == 32,
{
    let f = ark_bls12_381::Fr::from_le_bytes_mod_order(data.as_slice());
    let mut out = Vec::new();
    f.serialize_compressed(&mut out).unwrap();
    out
}

/// A registered voter: an externally assigned identity string together with
/// a private blinding factor drawn once at registration and never revealed.
#[derive(Debug, Clone)]
pub struct Voter {
    pub id: String,
    id_blinding: Vec<u8>,
}

impl Voter {
    /// The identity string, as seen by specifications.
    pub closed spec fn id_chars(self) -> Seq<char> {
        self.id@
    }

    /// The private blinding factor, visible only to specifications.
    pub closed spec fn blinding(self) -> Seq<u8> {
        self.id_blinding@
    }

    pub closed spec fn wf(self) -> bool {
        self.id_blinding@.len() == 32
    }

    /// The voter's nullifier: the digest of the identity's UTF-8 bytes
    /// followed by the blinding bytes. A function of the two inputs alone.
    pub closed spec fn nullifier_spec(self) -> Seq<u8> {
        sha3_256_of(encode_utf8(self.id@) + self.id_blinding@)
    }

    /// Registers a voter under `id` with a fresh random blinding factor.
    pub fn new(id: String) -> (v: Voter)
        ensures
            v.id_chars() == id@,
            v.wf(),
    {
        Voter { id, id_blinding: random_scalar_bytes() }
    }

    /// The voter's public duplicate-detection token: deterministic in
    /// (identity, blinding), infeasible to invert.
    pub fn nullifier(&self) -> (r: Vec<u8>)
        requires
            self.wf(),
        ensures
            r@ == self.nullifier_spec(),
            r@.len() == 32,
    {
        let mut data: Vec<u8> = vstd::slice::slice_to_vec(self.id.as_str().as_bytes());
        let n = self.id_blinding.len();
        let mut i: usize = 0;
        while i < n
            invariant
                n == self.id_blinding@.len(),
                i <= n,
                data@ == encode_utf8(self.id@) + self.id_blinding@.take(i as int),
            decreases n - i,
        {
            data.push(self.id_blinding[i]);
            proof {
                assert(data@ =~= encode_utf8(self.id@) + self.id_blinding@.take(i + 1));
            }
            i += 1;
        }
        proof {
            assert(self.id_blinding@.take(n as int) =~= self.id_blinding@);
        }
        sha3_256(&data)
    }

    /// The nullifier carried into the circuit-argument strategy: the raw
    /// digest reduced into the BLS12-381 scalar field, in canonical bytes.
    pub fn field_nullifier(&self) -> (r: Vec<u8>)
        requires
            self.wf(),
        ensures
            r@ == fr_reduce(self.nullifier_spec()),
            r@.len() == 32,
    {
        let digest = self.nullifier();
        fr_reduce_bytes(&digest)
    }
}

/// LAW: nullifier derivation is deterministic. Two voters with the same
/// identity and the same blinding factor derive the same nullifier. (That
/// distinct blinding factors give distinct nullifiers holds only with
/// overwhelming probability, as a property of the hash, and is exercised by
/// tests rather than proved.)
pub proof fn lemma_nullifier_deterministic(a: Voter, b: Voter)
    requires
        a.id_chars() == b.id_chars(),
        a.blinding() == b.blinding(),
    ensures
        a.nullifier_spec() == b.nullifier_spec(),
{
}

} // verus!
