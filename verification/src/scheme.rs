//! Encrypt and commit: a twisted-ElGamal ciphertext and a Pedersen
//! commitment to the same message under independent randomness.

use vstd::prelude::*;
use crate::algebra::elgamal_c1;
use crate::algebra::elgamal_c2;
use crate::algebra::group_order;
use crate::algebra::lemma_md_add_right;
use crate::algebra::pedersen_commit;
use crate::codec::Message;
use crate::group::basepoint;
use crate::group::hash_point_dlog;
use crate::group::hash_to_point;
use crate::group::point_add;
use crate::group::point_copy;
use crate::group::point_dlog;
use crate::group::point_mul;
use crate::group::scalar_random;
use crate::group::scalar_val;
use curve25519_dalek::ristretto::RistrettoPoint;
use curve25519_dalek::scalar::Scalar;

verus! {

/// A twisted-ElGamal ciphertext: `C1 = r·G`, `C2 = m·G + r·Y`.
pub struct CipherText {
    pub c1: RistrettoPoint,
    pub c2: RistrettoPoint,
}

/// The fixed seed the Pedersen generator `H` is derived from.
pub open spec fn pedersen_seed() -> Seq<u8> {
    seq![
        0x7au8,
        0x6bu8,
        0x2du8,
        0x63u8,
        0x6fu8,
        0x6eu8,
        0x73u8,
        0x69u8,
        0x73u8,
        0x74u8,
        0x65u8,
        0x6eu8,
        0x63u8,
        0x79u8,
        0x3au8,
        0x48u8,
    ]
}

/// Discrete log of the Pedersen generator `H`: fixed, deterministic, and
/// unknown to everyone, since `H` comes out of a hash-to-group map.
pub open spec fn pedersen_h() -> nat {
    hash_point_dlog(pedersen_seed())
}

fn pedersen_seed_bytes() -> (v: Vec<u8>)
    ensures
        v@ == pedersen_seed(),
{
    let mut v: Vec<u8> = Vec::new();
    v.push(0x7au8);
    v.push(0x6bu8);
    v.push(0x2du8);
    v.push(0x63u8);
    v.push(0x6fu8);
    v.push(0x6eu8);
    v.push(0x73u8);
    v.push(0x69u8);
    v.push(0x73u8);
    v.push(0x74u8);
    v.push(0x65u8);
    v.push(0x6eu8);
    v.push(0x63u8);
    v.push(0x79u8);
    v.push(0x3au8);
    v.push(0x48u8);
    proof {
        assert(v@ =~= pedersen_seed());
    }
    v
}

/// The second generator `H`, with no known discrete-log relation to `G`.
pub fn pedersen_generator() -> (p: RistrettoPoint)
    ensures
        point_dlog(p) == pedersen_h(),
        point_dlog(p) < group_order(),
{
    let seed = pedersen_seed_bytes();
    hash_to_point(seed.as_slice())
}

/// The ciphertext `(r·G, m·G + r·Y)` of the message under the recipient key
/// `Y` and the caller's randomness `r`.
pub fn encrypt_with(message: &Message, recipient_pk: &RistrettoPoint, r: &Scalar) -> (ct:
    CipherText)
    requires
        message.wf(),
    ensures
        point_dlog(ct.c1) == elgamal_c1(scalar_val(*r)),
        point_dlog(ct.c2) == elgamal_c2(
            message.value as nat,
            scalar_val(*r),
            point_dlog(*recipient_pk),
        ),
{
    let c1 = point_mul(r, &basepoint());
    let shared = point_mul(r, recipient_pk);
    let c2 = point_add(&message.point, &shared);
    proof {
        lemma_md_add_right(
            message.value as int,
            (scalar_val(*r) * point_dlog(*recipient_pk)) as int,
        );
    }
    CipherText { c1, c2 }
}

/// The Pedersen commitment `m·G + r'·H` to the message under the caller's
/// randomness `r'`: perfectly hiding, binding under the discrete-log
/// assumption for `H` relative to `G`.
pub fn commit_with(message: &Message, r_prime: &Scalar) -> (c: RistrettoPoint)
    requires
        message.wf(),
    ensures
        point_dlog(c) == pedersen_commit(message.value as nat, scalar_val(*r_prime), pedersen_h()),
{
    let h = pedersen_generator();
    let masked = point_mul(r_prime, &h);
    let c = point_add(&message.point, &masked);
    proof {
        lemma_md_add_right(message.value as int, (scalar_val(*r_prime) * pedersen_h()) as int);
    }
    c
}

/// One protocol instance: the public pieces (recipient key, ciphertext,
/// commitment) and the witness randomness `r`, `r'`, which the prover keeps
/// to itself and feeds into proof construction.
pub struct ProtocolScheme {
    pub pk: RistrettoPoint,
    pub ct: CipherText,
    pub pedersen_commitment: RistrettoPoint,
    pub r: Scalar,
    pub r_prime: Scalar,
}

impl ProtocolScheme {
    pub open spec fn r_val(&self) -> nat {
        scalar_val(self.r)
    }

    pub open spec fn r_prime_val(&self) -> nat {
        scalar_val(self.r_prime)
    }

    pub open spec fn wf(&self) -> bool {
        &&& self.r_val() < group_order()
        &&& self.r_prime_val() < group_order()
    }

    /// The ciphertext and the commitment both encode `m`, under this
    /// scheme's retained randomness and recipient key.
    pub open spec fn consistent_with(&self, m: nat) -> bool {
        &&& point_dlog(self.ct.c1) == elgamal_c1(self.r_val())
        &&& point_dlog(self.ct.c2) == elgamal_c2(m, self.r_val(), point_dlog(self.pk))
        &&& point_dlog(self.pedersen_commitment) == pedersen_commit(
            m,
            self.r_prime_val(),
            pedersen_h(),
        )
    }

    /// Encrypt and commit the message under the recipient key, sampling the
    /// two independent randomness scalars `r` and `r'` afresh.
    pub fn setup_with_pk(message: &Message, recipient_pk: &RistrettoPoint) -> (s: ProtocolScheme)
        requires
            message.wf(),
        ensures
            s.wf(),
            s.pk == *recipient_pk,
            s.consistent_with(message.value as nat),
    {
        let r = scalar_random();
        let r_prime = scalar_random();
        let ct = encrypt_with(message, recipient_pk, &r);
        let commitment = commit_with(message, &r_prime);
        ProtocolScheme {
            pk: point_copy(recipient_pk),
            ct,
            pedersen_commitment: commitment,
            r,
            r_prime,
        }
    }
}

} // verus!
