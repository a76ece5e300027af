//! The message codec: a bounded non-negative integer seen as a scalar and
//! as the group element `value·G`. There is no decoding from the point back
//! to the integer except comparison against a candidate's encoding: discrete
//! log recovery is infeasible by design.

use vstd::prelude::*;
use crate::algebra::lemma_md_small;
use crate::algebra::lemma_order_exceeds_u64;
use crate::group::basepoint;
use crate::group::point_dlog;
use crate::group::point_mul;
use crate::group::scalar_from_u64;
use crate::group::scalar_val;
use curve25519_dalek::ristretto::RistrettoPoint;
use curve25519_dalek::scalar::Scalar;

verus! {

/// A message: an integer below the group order together with its scalar
/// view and its group-element view `value·G`.
pub struct Message {
    pub value: u64,
    pub scalar: Scalar,
    pub point: RistrettoPoint,
}

impl Message {
    /// Both views encode exactly `value`.
    pub open spec fn wf(&self) -> bool {
        &&& scalar_val(self.scalar) == self.value as nat
        &&& point_dlog(self.point) == self.value as nat
    }

    /// Encode an integer as a message. Every `u64` lies below the group
    /// order, so the encoding is exact.
    pub fn encode(value: u64) -> (m: Message)
        ensures
            m.wf(),
            m.value == value,
    {
        let scalar = scalar_from_u64(value);
        let point = point_mul(&scalar, &basepoint());
        proof {
            lemma_order_exceeds_u64();
            lemma_md_small(value as nat);
        }
        Message { value, scalar, point }
    }
}

/// The group-element encoding `value·G` of a candidate integer: the form an
/// auditor compares a decryption against.
pub fn point_for(value: u64) -> (p: RistrettoPoint)
    ensures
        point_dlog(p) == value as nat,
{
    let m = Message::encode(value);
    m.point
}

} // verus!
