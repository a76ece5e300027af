//! Key generation: a secret scalar and its public key `pk = sk·G`.

use vstd::prelude::*;
use crate::algebra::group_order;
use crate::algebra::lemma_md_small;
use crate::group::basepoint;
use crate::group::point_dlog;
use crate::group::point_mul;
use crate::group::scalar_copy;
use crate::group::scalar_random;
use crate::group::scalar_val;
use curve25519_dalek::ristretto::RistrettoPoint;
use curve25519_dalek::scalar::Scalar;

verus! {

/// A principal's key pair: the secret scalar and the public key `sk·G`.
/// The secret key is meant for its holder alone; nothing here serializes or
/// logs it.
pub struct KeyPair {
    pub sk: Scalar,
    pub pk: RistrettoPoint,
}

impl KeyPair {
    /// The integer the secret key represents.
    pub open spec fn sk_val(&self) -> nat {
        scalar_val(self.sk)
    }

    pub open spec fn wf(&self) -> bool {
        &&& self.sk_val() < group_order()
        &&& point_dlog(self.pk) == self.sk_val()
    }

    /// Draw the secret key uniformly at random and pair it with `sk·G`.
    pub fn generate() -> (kp: KeyPair)
        ensures
            kp.wf(),
    {
        let sk = scalar_random();
        let pk = point_mul(&sk, &basepoint());
        proof {
            lemma_md_small(scalar_val(sk));
        }
        KeyPair { sk, pk }
    }

    /// Hand out the secret key: only its holder can decrypt and audit.
    pub fn get_secret(&self) -> (s: Scalar)
        ensures
            scalar_val(s) == self.sk_val(),
    {
        scalar_copy(&self.sk)
    }
}

} // verus!
