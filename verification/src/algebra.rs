//! The mathematical model of the protocol: arithmetic modulo the group
//! order, the discrete-log shapes of ciphertexts, commitments and sigma
//! announcements, and the algebraic laws the executable code is proved
//! against.

use vstd::prelude::*;
use vstd::arithmetic::div_mod::lemma_add_mod_noop;
use vstd::arithmetic::div_mod::lemma_add_mod_noop_right;
use vstd::arithmetic::div_mod::lemma_mod_bound;
use vstd::arithmetic::div_mod::lemma_mod_twice;
use vstd::arithmetic::div_mod::lemma_mul_mod_noop_left;
use vstd::arithmetic::div_mod::lemma_mul_mod_noop_right;
use vstd::arithmetic::div_mod::lemma_small_mod;
use vstd::arithmetic::div_mod::lemma_sub_mod_noop;
use vstd::arithmetic::power2::lemma_pow2_pos;
use vstd::arithmetic::power2::lemma_pow2_strictly_increases;
use vstd::arithmetic::power2::lemma2_to64;
use vstd::arithmetic::power2::pow2;

verus! {

/// Order of the prime-order group in which every value of this library
/// lives: the order of the Ristretto group, the prime
/// 2^252 + 27742317777372353535851937790883648493.
pub open spec fn group_order() -> nat {
    pow2(252) + 27742317777372353535851937790883648493nat
}

/// Reduction of an integer into the scalar field `[0, group_order())`.
pub open spec fn md(x: int) -> nat {
    (x % (group_order() as int)) as nat
}

pub proof fn lemma_order_pos()
    ensures
        group_order() >= 2,
{
    lemma_pow2_pos(252);
}

/// Every `u64` is already a canonical field element: the group order is far
/// above `u64::MAX`.
pub proof fn lemma_order_exceeds_u64()
    ensures
        group_order() > u64::MAX,
{
    lemma_pow2_strictly_increases(64, 252);
    lemma2_to64();
}

pub proof fn lemma_md_bound(x: int)
    ensures
        md(x) < group_order(),
{
    lemma_order_pos();
    lemma_mod_bound(x, group_order() as int);
}

pub proof fn lemma_md_small(x: nat)
    requires
        x < group_order(),
    ensures
        md(x as int) == x,
{
    lemma_order_pos();
    lemma_small_mod(x, group_order());
}

pub proof fn lemma_md_idem(x: int)
    ensures
        md(md(x) as int) == md(x),
{
    lemma_order_pos();
    lemma_mod_twice(x, group_order() as int);
}

pub proof fn lemma_md_add_left(x: int, y: int)
    ensures
        md(md(x) + y) == md(x + y),
{
    lemma_order_pos();
    let l = group_order() as int;
    lemma_add_mod_noop(x, y, l);
    lemma_add_mod_noop(md(x) as int, y, l);
    lemma_mod_twice(x, l);
}

pub proof fn lemma_md_add_right(x: int, y: int)
    ensures
        md(x + md(y)) == md(x + y),
{
    lemma_order_pos();
    let l = group_order() as int;
    lemma_add_mod_noop_right(x, md(y) as int, l);
    lemma_mod_twice(y, l);
    lemma_add_mod_noop_right(x, y, l);
}

pub proof fn lemma_md_sub_right(x: int, y: int)
    ensures
        md(x - md(y)) == md(x - y),
{
    lemma_order_pos();
    let l = group_order() as int;
    lemma_sub_mod_noop(x, md(y) as int, l);
    lemma_mod_twice(y, l);
    lemma_sub_mod_noop(x, y, l);
    lemma_mod_twice(x, l);
}

pub proof fn lemma_md_mul_left(x: int, y: int)
    ensures
        md(md(x) * y) == md(x * y),
{
    lemma_order_pos();
    lemma_mul_mod_noop_left(x, y, group_order() as int);
}

pub proof fn lemma_md_mul_right(x: int, y: int)
    ensures
        md(x * md(y)) == md(x * y),
{
    lemma_order_pos();
    lemma_mul_mod_noop_right(x, y, group_order() as int);
}

/// The non-negative integer that a byte sequence denotes when read as a
/// little-endian number.
pub open spec fn le_bytes_val(s: Seq<u8>) -> nat
    decreases s.len(),
{
    if s.len() == 0 {
        0
    } else {
        s[0] as nat + 256 * le_bytes_val(s.skip(1))
    }
}

/// Discrete log of the first ciphertext component `C1 = r·G`.
pub open spec fn elgamal_c1(r: nat) -> nat {
    md(r as int)
}

/// Discrete log of the second ciphertext component `C2 = m·G + r·Y`, where
/// `y` is the discrete log of the recipient key `Y`.
pub open spec fn elgamal_c2(m: nat, r: nat, y: nat) -> nat {
    md((m + r * y) as int)
}

/// Discrete log of the Pedersen commitment `Cm = m·G + r'·H`, where `h` is
/// the discrete log of the second generator `H`.
pub open spec fn pedersen_commit(m: nat, rp: nat, h: nat) -> nat {
    md((m + rp * h) as int)
}

/// Discrete log of a decrypted ciphertext: `C2 − sk·C1`.
pub open spec fn decrypt_dlog(sk: nat, c1: nat, c2: nat) -> nat {
    md(c2 - md((sk * c1) as int))
}

/// A sigma-protocol response `z = k + e·w mod ℓ` for blinding `k`,
/// challenge `e` and witness `w`.
pub open spec fn sigma_response(k: nat, e: nat, w: nat) -> nat {
    md((k + e * w) as int)
}

/// Discrete log of a single-generator announcement `A = k·G`.
pub open spec fn announce_one(k: nat) -> nat {
    md(k as int)
}

/// Discrete log of a two-generator announcement `A = k1·G + k2·P`, where
/// `p` is the discrete log of `P`.
pub open spec fn announce_two(k1: nat, k2: nat, p: nat) -> nat {
    md((k1 + k2 * p) as int)
}

/// The single-generator verification equation `z·G = A + e·C`, stated over
/// discrete logs.
pub open spec fn equation_one(z: nat, a: nat, e: nat, c: nat) -> bool {
    md(z as int) == md((a + e * c) as int)
}

/// The two-generator verification equation `z1·G + z2·P = A + e·C`, stated
/// over discrete logs, with `p` the discrete log of `P`.
pub open spec fn equation_two(z1: nat, z2: nat, p: nat, a: nat, e: nat, c: nat) -> bool {
    md((z1 + z2 * p) as int) == md((a + e * c) as int)
}

/// Completeness of the single-generator equation: an honest announcement
/// `A = k·G`, statement `C = w·G` and response `z = k + e·w` satisfy
/// `z·G = A + e·C`, for every challenge `e`.
pub proof fn lemma_equation_one_complete(k: nat, e: nat, w: nat)
    ensures
        equation_one(sigma_response(k, e, w), announce_one(k), e, md(w as int)),
{
    let a: int = announce_one(k) as int;
    let c: int = md(w as int) as int;
    lemma_md_idem((k + e * w) as int);
    assert(md(a + e * c) == md(k + e * c)) by {
        lemma_md_add_left(k as int, e * c);
    }
    assert(md(k + e * c) == md((k + e * w) as int)) by {
        lemma_md_add_right(k as int, e * c);
        lemma_md_mul_right(e as int, w as int);
        lemma_md_add_right(k as int, (e * w) as int);
    }
}

/// Completeness of the two-generator equation: honest announcement
/// `A = k1·G + k2·P`, statement `C = w1·G + w2·P` and responses
/// `z1 = k1 + e·w1`, `z2 = k2 + e·w2` satisfy `z1·G + z2·P = A + e·C`.
pub proof fn lemma_equation_two_complete(k1: nat, k2: nat, e: nat, w1: nat, w2: nat, p: nat)
    ensures
        equation_two(
            sigma_response(k1, e, w1),
            sigma_response(k2, e, w2),
            p,
            announce_two(k1, k2, p),
            e,
            md((w1 + w2 * p) as int),
        ),
{
    let lhs_full: int = ((k1 + e * w1) + (k2 + e * w2) * p) as int;
    let rhs_full: int = ((k1 + k2 * p) + e * (w1 + w2 * p)) as int;
    assert((k1 + e * w1) + (k2 + e * w2) * p == (k1 + k2 * p) + e * (w1 + w2 * p))
        by (nonlinear_arith);
    assert(lhs_full == rhs_full);

    let za: int = (k1 + e * w1) as int;
    let zb: int = (k2 + e * w2) as int;
    // Left side: z1 + z2·p reduces to the unreduced sum.
    assert(md((sigma_response(k1, e, w1) + sigma_response(k2, e, w2) * p) as int) == md(
        lhs_full,
    )) by {
        lemma_md_add_left(za, (md(zb) * p) as int);
        lemma_md_mul_left(zb, p as int);
        lemma_md_add_right(za, (md(zb) * p) as int);
        lemma_md_add_right(za, zb * p);
    }
    // Right side: a + e·c reduces to the same unreduced sum.
    let cc: int = (w1 + w2 * p) as int;
    let aa: int = (k1 + k2 * p) as int;
    assert(md((announce_two(k1, k2, p) + e * md(cc)) as int) == md(rhs_full)) by {
        lemma_md_add_left(aa, (e * md(cc)) as int);
        lemma_md_mul_right(e as int, cc);
        lemma_md_add_right(aa, (e * md(cc)) as int);
        lemma_md_add_right(aa, e * cc);
    }
}

} // verus!
