//! The auditor: decrypt a ciphertext with the secret key and match the
//! result against a candidate plaintext. Decryption yields the message's
//! group-element encoding `m·G`; it confirms a caller-supplied candidate and
//! cannot recover an unknown value — that asymmetry is a scope limit of the
//! scheme, not an oversight.

use vstd::prelude::*;
use crate::algebra::decrypt_dlog;
use crate::codec::point_for;
use crate::group::point_dlog;
use crate::group::point_eq;
use crate::group::point_mul;
use crate::group::point_sub;
use crate::group::scalar_val;
use crate::scheme::CipherText;
use curve25519_dalek::ristretto::RistrettoPoint;
use curve25519_dalek::scalar::Scalar;

verus! {

/// Decrypt: `C2 − sk·C1`, the group-element encoding of the plaintext when
/// `sk` is the key the ciphertext was produced for.
pub fn twisted_elgamal_decrypt(sk: &Scalar, ct: &CipherText) -> (p: RistrettoPoint)
    ensures
        point_dlog(p) == decrypt_dlog(scalar_val(*sk), point_dlog(ct.c1), point_dlog(ct.c2)),
{
    let masked = point_mul(sk, &ct.c1);
    point_sub(&ct.c2, &masked)
}

/// Decrypt and compare against a candidate's encoding: true exactly when
/// the ciphertext decrypts to `candidate·G` under `sk`. Inequality is a
/// definite negative verdict (wrong key, tampering, or a false claim), not
/// a fault.
pub fn audit_decryption(sk: &Scalar, ct: &CipherText, candidate: u64) -> (r: bool)
    ensures
        r == (decrypt_dlog(scalar_val(*sk), point_dlog(ct.c1), point_dlog(ct.c2))
            == candidate as nat),
{
    let decrypted = twisted_elgamal_decrypt(sk, ct);
    let expected = point_for(candidate);
    point_eq(&decrypted, &expected)
}

} // verus!
