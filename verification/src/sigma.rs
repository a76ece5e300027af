//! The consistency proof: a generalized Schnorr/Chaum–Pedersen sigma
//! protocol, made non-interactive by the Fiat–Shamir transform. It proves,
//! without revealing `m`, `r` or `r'`, that the ciphertext
//! `(C1, C2) = (r·G, m·G + r·Y)` and the commitment `Cm = m·G + r'·H` share
//! the same message `m`: the response `zm` appears in both two-generator
//! equations, and that algebraic sharing is the consistency guarantee.

use vstd::prelude::*;
use crate::algebra::equation_one;
use crate::algebra::equation_two;
use crate::algebra::le_bytes_val;
use crate::algebra::lemma_equation_one_complete;
use crate::algebra::lemma_equation_two_complete;
use crate::algebra::lemma_md_add_right;
use crate::algebra::lemma_md_bound;
use crate::algebra::lemma_md_small;
use crate::algebra::md;
use crate::codec::Message;
use crate::group::basepoint;
use crate::group::multiscalar_mul_two;
use crate::group::point_add;
use crate::group::point_compress;
use crate::group::point_copy;
use crate::group::point_dlog;
use crate::group::point_encoding;
use crate::group::point_eq;
use crate::group::point_mul;
use crate::group::scalar_add;
use crate::group::scalar_eq;
use crate::group::scalar_from_u64;
use crate::group::scalar_from_wide;
use crate::group::scalar_mul;
use crate::group::scalar_random;
use crate::group::scalar_val;
use crate::group::sha512;
use crate::group::sha512_digest;
use crate::scheme::CipherText;
use crate::scheme::pedersen_generator;
use crate::scheme::pedersen_h;
use crate::scheme::ProtocolScheme;
use crate::wire::append_block;
use curve25519_dalek::ristretto::RistrettoPoint;
use curve25519_dalek::scalar::Scalar;

verus! {

/// The public statement a consistency proof speaks about: the recipient
/// key, the ciphertext and the commitment.
pub struct Statement {
    pub pk: RistrettoPoint,
    pub ct: CipherText,
    pub commitment: RistrettoPoint,
}

/// A non-interactive consistency proof: the three announcements, the
/// Fiat–Shamir challenge, and the three responses.
pub struct ConsistencyProof {
    pub a1: RistrettoPoint,
    pub a2: RistrettoPoint,
    pub a3: RistrettoPoint,
    pub e: Scalar,
    pub zm: Scalar,
    pub zr: Scalar,
    pub zr_prime: Scalar,
}

impl ConsistencyProof {
    /// Every scalar of the proof is a canonical field element.
    pub open spec fn wf(&self) -> bool {
        &&& scalar_val(self.e) < crate::algebra::group_order()
        &&& scalar_val(self.zm) < crate::algebra::group_order()
        &&& scalar_val(self.zr) < crate::algebra::group_order()
        &&& scalar_val(self.zr_prime) < crate::algebra::group_order()
    }
}

/// The domain-separation tag that opens every challenge transcript.
pub open spec fn challenge_tag() -> Seq<u8> {
    seq![
        0x7au8,
        0x6bu8,
        0x2du8,
        0x63u8,
        0x6fu8,
        0x6eu8,
        0x73u8,
        0x69u8,
        0x73u8,
        0x74u8,
        0x65u8,
        0x6eu8,
        0x63u8,
        0x79u8,
        0x3au8,
        0x65u8,
    ]
}

/// The byte transcript the challenge is derived from: the tag, both
/// generators, and every public value of the statement and the
/// announcements, each in its canonical compressed encoding.
pub open spec fn transcript_spec(
    y: nat,
    c1: nat,
    c2: nat,
    cm: nat,
    a1: nat,
    a2: nat,
    a3: nat,
) -> Seq<u8> {
    challenge_tag() + point_encoding(1) + point_encoding(pedersen_h()) + point_encoding(y)
        + point_encoding(c1) + point_encoding(c2) + point_encoding(cm) + point_encoding(a1)
        + point_encoding(a2) + point_encoding(a3)
}

/// The Fiat–Shamir challenge: the SHA-512 digest of the transcript, read as
/// a wide little-endian integer and reduced modulo the group order.
pub open spec fn challenge_spec(
    y: nat,
    c1: nat,
    c2: nat,
    cm: nat,
    a1: nat,
    a2: nat,
    a3: nat,
) -> nat {
    md(le_bytes_val(sha512_digest(transcript_spec(y, c1, c2, cm, a1, a2, a3))) as int)
}

/// What acceptance of a proof means, over the discrete logs of the
/// statement and the proof: the carried challenge equals the transcript
/// hash, and the three verification equations hold.
pub open spec fn accepted(st: Statement, pr: ConsistencyProof) -> bool {
    let y = point_dlog(st.pk);
    let c1 = point_dlog(st.ct.c1);
    let c2 = point_dlog(st.ct.c2);
    let cm = point_dlog(st.commitment);
    let a1 = point_dlog(pr.a1);
    let a2 = point_dlog(pr.a2);
    let a3 = point_dlog(pr.a3);
    &&& scalar_val(pr.e) == challenge_spec(y, c1, c2, cm, a1, a2, a3)
    &&& equation_one(scalar_val(pr.zr), a1, scalar_val(pr.e), c1)
    &&& equation_two(scalar_val(pr.zm), scalar_val(pr.zr), y, a2, scalar_val(pr.e), c2)
    &&& equation_two(
        scalar_val(pr.zm),
        scalar_val(pr.zr_prime),
        pedersen_h(),
        a3,
        scalar_val(pr.e),
        cm,
    )
}

fn challenge_tag_bytes() -> (v: Vec<u8>)
    ensures
        v@ == challenge_tag(),
{
    let mut v: Vec<u8> = Vec::new();
    v.push(0x7au8);
    v.push(0x6bu8);
    v.push(0x2du8);
    v.push(0x63u8);
    v.push(0x6fu8);
    v.push(0x6eu8);
    v.push(0x73u8);
    v.push(0x69u8);
    v.push(0x73u8);
    v.push(0x74u8);
    v.push(0x65u8);
    v.push(0x6eu8);
    v.push(0x63u8);
    v.push(0x79u8);
    v.push(0x3au8);
    v.push(0x65u8);
    proof {
        assert(v@ =~= challenge_tag());
    }
    v
}

/// Overwrite a secret scalar once it is no longer needed.
fn wipe(s: &mut Scalar)
    ensures
        scalar_val(*final(s)) == 0,
{
    *s = scalar_from_u64(0);
}

/// Derive the challenge for the given statement and announcements by
/// hashing the full transcript.
fn compute_challenge(
    pk: &RistrettoPoint,
    ct: &CipherText,
    commitment: &RistrettoPoint,
    a1: &RistrettoPoint,
    a2: &RistrettoPoint,
    a3: &RistrettoPoint,
) -> (e: Scalar)
    ensures
        scalar_val(e) == challenge_spec(
            point_dlog(*pk),
            point_dlog(ct.c1),
            point_dlog(ct.c2),
            point_dlog(*commitment),
            point_dlog(*a1),
            point_dlog(*a2),
            point_dlog(*a3),
        ),
{
    let mut t = challenge_tag_bytes();
    let g = basepoint();
    let h = pedersen_generator();
    append_block(&mut t, &point_compress(&g));
    append_block(&mut t, &point_compress(&h));
    append_block(&mut t, &point_compress(pk));
    append_block(&mut t, &point_compress(&ct.c1));
    append_block(&mut t, &point_compress(&ct.c2));
    append_block(&mut t, &point_compress(commitment));
    append_block(&mut t, &point_compress(a1));
    append_block(&mut t, &point_compress(a2));
    append_block(&mut t, &point_compress(a3));
    proof {
        assert(t@ =~= transcript_spec(
            point_dlog(*pk),
            point_dlog(ct.c1),
            point_dlog(ct.c2),
            point_dlog(*commitment),
            point_dlog(*a1),
            point_dlog(*a2),
            point_dlog(*a3),
        ));
    }
    let digest = sha512(t.as_slice());
    scalar_from_wide(&digest)
}

impl ConsistencyProof {
    /// Build a proof for the scheme's statement: sample the blinding
    /// scalars, announce, derive the Fiat–Shamir challenge, respond. The
    /// result is accepted — completeness holds by construction.
    pub fn build(message: &Message, scheme: &ProtocolScheme) -> (pr: ConsistencyProof)
        requires
            message.wf(),
            scheme.wf(),
            scheme.consistent_with(message.value as nat),
        ensures
            pr.wf(),
            accepted(scheme.statement_spec(), pr),
    {
        let mut km = scalar_random();
        let mut kr = scalar_random();
        let mut krp = scalar_random();
        let g = basepoint();
        let h = pedersen_generator();
        let a1 = point_mul(&kr, &g);
        let a2 = multiscalar_mul_two(&km, &g, &kr, &scheme.pk);
        let a3 = multiscalar_mul_two(&km, &g, &krp, &h);
        let e = compute_challenge(
            &scheme.pk,
            &scheme.ct,
            &scheme.pedersen_commitment,
            &a1,
            &a2,
            &a3,
        );
        let zm = scalar_add(&km, &scalar_mul(&e, &message.scalar));
        let zr = scalar_add(&kr, &scalar_mul(&e, &scheme.r));
        let zr_prime = scalar_add(&krp, &scalar_mul(&e, &scheme.r_prime));
        proof {
            let mv = message.value as nat;
            let ev = scalar_val(e);
            let kmv = scalar_val(km);
            let krv = scalar_val(kr);
            let krpv = scalar_val(krp);
            let y = point_dlog(scheme.pk);
            // Each response is `k + e·w mod ℓ`.
            lemma_md_add_right(kmv as int, (ev * mv) as int);
            lemma_md_add_right(krv as int, (ev * scheme.r_val()) as int);
            lemma_md_add_right(krpv as int, (ev * scheme.r_prime_val()) as int);
            // The three equations hold of an honest transcript.
            lemma_equation_one_complete(krv, ev, scheme.r_val());
            lemma_md_small(scheme.r_val());
            lemma_equation_two_complete(kmv, krv, ev, mv, scheme.r_val(), y);
            lemma_equation_two_complete(kmv, krpv, ev, mv, scheme.r_prime_val(), pedersen_h());
            lemma_md_bound((kmv + ev * mv) as int);
            lemma_md_bound((krv + ev * scheme.r_val()) as int);
            lemma_md_bound((krpv + ev * scheme.r_prime_val()) as int);
        }
        // The blinding scalars are secrets used at most once: overwrite them
        // before they go out of scope.
        wipe(&mut km);
        wipe(&mut kr);
        wipe(&mut krp);
        ConsistencyProof { a1, a2, a3, e, zm, zr, zr_prime }
    }
}

impl ProtocolScheme {
    /// The public statement of this scheme instance, as the verifier sees
    /// it.
    pub open spec fn statement_spec(&self) -> Statement {
        Statement { pk: self.pk, ct: CipherText { c1: self.ct.c1, c2: self.ct.c2 }, commitment: self.pedersen_commitment }
    }

    /// Release the public statement: recipient key, ciphertext,
    /// commitment. The witness stays behind.
    pub fn statement(&self) -> (st: Statement)
        ensures
            st == self.statement_spec(),
    {
        Statement {
            pk: point_copy(&self.pk),
            ct: CipherText { c1: point_copy(&self.ct.c1), c2: point_copy(&self.ct.c2) },
            commitment: point_copy(&self.pedersen_commitment),
        }
    }
}

/// Verify a consistency proof against its public statement: recompute the
/// challenge from the identical transcript and check the three group
/// equations with multiscalar multiplication. Returns true exactly when the
/// proof is accepted — an invalid proof is a verdict, never a fault.
pub fn verify(st: &Statement, pr: &ConsistencyProof) -> (r: bool)
    ensures
        r == accepted(*st, *pr),
{
    let g = basepoint();
    let h = pedersen_generator();
    let e_prime = compute_challenge(&st.pk, &st.ct, &st.commitment, &pr.a1, &pr.a2, &pr.a3);
    let challenge_ok = scalar_eq(&e_prime, &pr.e);
    let lhs1 = point_mul(&pr.zr, &g);
    let rhs1 = point_add(&pr.a1, &point_mul(&pr.e, &st.ct.c1));
    let eq1_ok = point_eq(&lhs1, &rhs1);
    let lhs2 = multiscalar_mul_two(&pr.zm, &g, &pr.zr, &st.pk);
    let rhs2 = point_add(&pr.a2, &point_mul(&pr.e, &st.ct.c2));
    let eq2_ok = point_eq(&lhs2, &rhs2);
    let lhs3 = multiscalar_mul_two(&pr.zm, &g, &pr.zr_prime, &h);
    let rhs3 = point_add(&pr.a3, &point_mul(&pr.e, &st.commitment));
    let eq3_ok = point_eq(&lhs3, &rhs3);
    proof {
        let ev = scalar_val(pr.e);
        lemma_md_add_right(point_dlog(pr.a1) as int, (ev * point_dlog(st.ct.c1)) as int);
        lemma_md_add_right(point_dlog(pr.a2) as int, (ev * point_dlog(st.ct.c2)) as int);
        lemma_md_add_right(point_dlog(pr.a3) as int, (ev * point_dlog(st.commitment)) as int);
    }
    challenge_ok && eq1_ok && eq2_ok && eq3_ok
}

} // verus!
