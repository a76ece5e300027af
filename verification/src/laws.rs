//! The laws of the protocol, each proved once and for all inputs:
//! completeness of the sigma-protocol equations, the decryption round trip,
//! and determinism of the Fiat–Shamir challenge.

use vstd::prelude::*;
use crate::algebra::announce_one;
use crate::algebra::announce_two;
use crate::algebra::decrypt_dlog;
use crate::algebra::elgamal_c1;
use crate::algebra::elgamal_c2;
use crate::algebra::equation_one;
use crate::algebra::equation_two;
use crate::algebra::group_order;
use crate::algebra::lemma_equation_one_complete;
use crate::algebra::lemma_equation_two_complete;
use crate::algebra::lemma_md_add_left;
use crate::algebra::lemma_md_mul_right;
use crate::algebra::lemma_md_small;
use crate::algebra::lemma_md_sub_right;
use crate::algebra::md;
use crate::algebra::pedersen_commit;
use crate::algebra::sigma_response;
use crate::group::point_dlog;
use crate::sigma::challenge_spec;
use crate::sigma::ConsistencyProof;
use crate::sigma::Statement;

verus! {

/// Completeness: for every witness `(m, r, r')`, every recipient key log
/// `y`, every Pedersen generator log `h`, every choice of blinding scalars
/// and every challenge, the honest announcements and responses satisfy all
/// three verification equations over the statement built from the witness.
/// `ConsistencyProof::build` establishes exactly these equations, and
/// `verify` accepts exactly when they hold along with the challenge match.
pub proof fn lemma_consistency_complete(
    m: nat,
    r: nat,
    rp: nat,
    y: nat,
    h: nat,
    km: nat,
    kr: nat,
    krp: nat,
    e: nat,
)
    ensures
        equation_one(sigma_response(kr, e, r), announce_one(kr), e, elgamal_c1(r)),
        equation_two(
            sigma_response(km, e, m),
            sigma_response(kr, e, r),
            y,
            announce_two(km, kr, y),
            e,
            elgamal_c2(m, r, y),
        ),
        equation_two(
            sigma_response(km, e, m),
            sigma_response(krp, e, rp),
            h,
            announce_two(km, krp, h),
            e,
            pedersen_commit(m, rp, h),
        ),
{
    lemma_equation_one_complete(kr, e, r);
    lemma_equation_two_complete(km, kr, e, m, r, y);
    lemma_equation_two_complete(km, krp, e, m, rp, h);
}

/// Round trip: decryption inverts encryption. With recipient key `sk·G`,
/// the ciphertext `(r·G, m·G + r·(sk·G))` decrypts to the group element of
/// discrete log exactly `m`, for every message below the group order and
/// every randomness.
pub proof fn lemma_decrypt_round_trip(m: nat, r: nat, sk: nat)
    requires
        m < group_order(),
    ensures
        decrypt_dlog(sk, elgamal_c1(r), elgamal_c2(m, r, sk)) == m,
{
    let c2: int = elgamal_c2(m, r, sk) as int;
    assert(md(sk * (elgamal_c1(r) as int)) == md((sk * r) as int)) by {
        lemma_md_mul_right(sk as int, r as int);
    }
    assert(md(c2 - md((sk * r) as int)) == md(m + r * sk - sk * r)) by {
        lemma_md_add_left((m + r * sk) as int, -(md((sk * r) as int) as int));
        lemma_md_sub_right((m + r * sk) as int, (sk * r) as int);
    }
    assert(r * sk == sk * r) by (nonlinear_arith);
    lemma_md_small(m);
}

/// Determinism: the challenge is a pure function of its announced
/// transcript. Two statements and announcement triples that agree as group
/// elements yield the identical challenge, whatever else differs.
pub proof fn lemma_challenge_deterministic(
    st1: Statement,
    pr1: ConsistencyProof,
    st2: Statement,
    pr2: ConsistencyProof,
)
    requires
        point_dlog(st1.pk) == point_dlog(st2.pk),
        point_dlog(st1.ct.c1) == point_dlog(st2.ct.c1),
        point_dlog(st1.ct.c2) == point_dlog(st2.ct.c2),
        point_dlog(st1.commitment) == point_dlog(st2.commitment),
        point_dlog(pr1.a1) == point_dlog(pr2.a1),
        point_dlog(pr1.a2) == point_dlog(pr2.a2),
        point_dlog(pr1.a3) == point_dlog(pr2.a3),
    ensures
        challenge_spec(
            point_dlog(st1.pk),
            point_dlog(st1.ct.c1),
            point_dlog(st1.ct.c2),
            point_dlog(st1.commitment),
            point_dlog(pr1.a1),
            point_dlog(pr1.a2),
            point_dlog(pr1.a3),
        ) == challenge_spec(
            point_dlog(st2.pk),
            point_dlog(st2.ct.c1),
            point_dlog(st2.ct.c2),
            point_dlog(st2.commitment),
            point_dlog(pr2.a1),
            point_dlog(pr2.a2),
            point_dlog(pr2.a3),
        ),
{
}

} // verus!
